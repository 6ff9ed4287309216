//! Reading exchange error texts: which errors end an order, which call for a
//! cooldown or a retry, and the exit-submit stage recorded in an order's last
//! error.
use vstd::prelude::*;
use crate::order::{
    TradeBuilderOrder, spec_should_use_optimistic_exit_submit, spec_normalize_size_basis,
    trade_builder_should_use_optimistic_exit_submit, normalize_trade_builder_size_basis,
    TRADE_BUILDER_SIZE_BASIS_SHARES,
};
use crate::text::{str_eq, str_contains, contains, occurs_at, lower, trim, trimmed, to_ascii_lowercase, concat3, lemma_contains_trim};

verus! {

broadcast use vstd::string::group_string_axioms;

/// The marker that an exit-retry error text carries before its stage name.
pub const TRADE_BUILDER_EXIT_STAGE_MARKER_PREFIX: &'static str = "[exit_submit_stage=";

/// How much of the position an optimistic exit submits.
#[derive(Debug, Clone, Copy, PartialEq, Eq, Structural)]
pub enum TradeBuilderExitSubmitStage {
    DynamicGross,
    EstimatedVisible,
    VisibleInventory,
}

pub open spec fn spec_stage_name(stage: TradeBuilderExitSubmitStage) -> Seq<char> {
    match stage {
        TradeBuilderExitSubmitStage::DynamicGross => "dynamic_gross"@,
        TradeBuilderExitSubmitStage::EstimatedVisible => "estimated_visible"@,
        TradeBuilderExitSubmitStage::VisibleInventory => "visible_inventory"@,
    }
}

impl TradeBuilderExitSubmitStage {
    pub fn as_str(self) -> (r: &'static str)
        ensures
            r@ == spec_stage_name(self),
    {
        match self {
            TradeBuilderExitSubmitStage::DynamicGross => "dynamic_gross",
            TradeBuilderExitSubmitStage::EstimatedVisible => "estimated_visible",
            TradeBuilderExitSubmitStage::VisibleInventory => "visible_inventory",
        }
    }
}

/// Where a terminal fill quantity was read from.
#[derive(Debug, Clone, Copy, PartialEq, Eq, Structural)]
pub enum TradeBuilderTerminalFillQtySource {
    OrderInfoFilledSize,
    OrderInfoSize,
    StoredOrderSize,
}

impl TradeBuilderTerminalFillQtySource {
    pub fn as_str(self) -> (r: &'static str)
        ensures
            r@ == match self {
                TradeBuilderTerminalFillQtySource::OrderInfoFilledSize => "order_info_filled_size"@,
                TradeBuilderTerminalFillQtySource::OrderInfoSize => "order_info_size"@,
                TradeBuilderTerminalFillQtySource::StoredOrderSize => "stored_order_size"@,
            },
    {
        match self {
            TradeBuilderTerminalFillQtySource::OrderInfoFilledSize => "order_info_filled_size",
            TradeBuilderTerminalFillQtySource::OrderInfoSize => "order_info_size",
            TradeBuilderTerminalFillQtySource::StoredOrderSize => "stored_order_size",
        }
    }
}

/// The stage recorded in a last error: the first of the visible-inventory,
/// estimated-visible and dynamic-gross markers that the text contains.
pub open spec fn spec_stage_from_last_error(last_error: Option<Seq<char>>) -> Option<TradeBuilderExitSubmitStage> {
    match last_error {
        None => None,
        Some(e) => if contains(e, "[exit_submit_stage=visible_inventory]"@) {
            Some(TradeBuilderExitSubmitStage::VisibleInventory)
        } else if contains(e, "[exit_submit_stage=estimated_visible]"@) {
            Some(TradeBuilderExitSubmitStage::EstimatedVisible)
        } else if contains(e, "[exit_submit_stage=dynamic_gross]"@) {
            Some(TradeBuilderExitSubmitStage::DynamicGross)
        } else {
            None
        },
    }
}

pub open spec fn opt_str_text(s: Option<&str>) -> Option<Seq<char>> {
    match s {
        Some(s) => Some(s@),
        None => None,
    }
}

pub fn trade_builder_exit_submit_stage_from_last_error(last_error: Option<&str>) -> (r: Option<TradeBuilderExitSubmitStage>)
    ensures
        r == spec_stage_from_last_error(opt_str_text(last_error)),
{
    let error_text = match last_error {
        Some(e) => e,
        None => return None,
    };
    if str_contains(error_text, "[exit_submit_stage=visible_inventory]") {
        return Some(TradeBuilderExitSubmitStage::VisibleInventory);
    }
    if str_contains(error_text, "[exit_submit_stage=estimated_visible]") {
        return Some(TradeBuilderExitSubmitStage::EstimatedVisible);
    }
    if str_contains(error_text, "[exit_submit_stage=dynamic_gross]") {
        return Some(TradeBuilderExitSubmitStage::DynamicGross);
    }
    None
}

/// The error text of a retry: trimmed, with the next stage's marker appended.
pub open spec fn spec_retry_error_text(error_text: Seq<char>, next_stage: Option<TradeBuilderExitSubmitStage>) -> Seq<char> {
    match next_stage {
        Some(stage) => trim(error_text) + " "@ + TRADE_BUILDER_EXIT_STAGE_MARKER_PREFIX@ + spec_stage_name(stage) + "]"@,
        None => trim(error_text),
    }
}

pub fn trade_builder_retry_error_text(error_text: &str, next_stage: Option<TradeBuilderExitSubmitStage>) -> (r: String)
    ensures
        r@ == spec_retry_error_text(error_text@, next_stage),
{
    let t = trimmed(error_text);
    match next_stage {
        Some(stage) => {
            let head = concat3(t.as_str(), " ", TRADE_BUILDER_EXIT_STAGE_MARKER_PREFIX);
            concat3(head.as_str(), stage.as_str(), "]")
        },
        None => t,
    }
}

/// The stage of an order's next exit submit: the recorded one for an
/// optimistic exit, dynamic gross otherwise or when none is recorded.
pub open spec fn spec_current_exit_submit_stage(order: &TradeBuilderOrder) -> TradeBuilderExitSubmitStage {
    if !spec_should_use_optimistic_exit_submit(order) {
        TradeBuilderExitSubmitStage::DynamicGross
    } else {
        match spec_stage_from_last_error(crate::order::opt_text(order.last_error)) {
            Some(s) => s,
            None => TradeBuilderExitSubmitStage::DynamicGross,
        }
    }
}

pub fn trade_builder_current_exit_submit_stage(order: &TradeBuilderOrder) -> (r: TradeBuilderExitSubmitStage)
    ensures
        r == spec_current_exit_submit_stage(order),
{
    if !trade_builder_should_use_optimistic_exit_submit(order) {
        return TradeBuilderExitSubmitStage::DynamicGross;
    }
    let last = match &order.last_error {
        Some(e) => Some(e.as_str()),
        None => None,
    };
    match trade_builder_exit_submit_stage_from_last_error(last) {
        Some(s) => s,
        None => TradeBuilderExitSubmitStage::DynamicGross,
    }
}

/// After a balance or allowance rejection, the next optimistic attempt
/// submits the visible inventory, whatever stage it was at.
pub fn trade_builder_next_optimistic_exit_stage_after_balance_reject(
    current_attempt_stage: TradeBuilderExitSubmitStage,
) -> (r: TradeBuilderExitSubmitStage)
    ensures
        r == TradeBuilderExitSubmitStage::VisibleInventory,
{
    TradeBuilderExitSubmitStage::VisibleInventory
}

/// A cancel refused because the order already matched or filled.
pub open spec fn spec_cancel_error_indicates_terminal_match(e: Seq<char>) -> bool {
    let n = lower(e);
    contains(n, "matched orders can't be canceled"@)
        || (contains(n, "matched"@) && contains(n, "cancel"@))
        || (contains(n, "filled"@) && contains(n, "cancel"@))
}

pub fn cancel_error_indicates_terminal_match(error_text: &str) -> (r: bool)
    ensures
        r == spec_cancel_error_indicates_terminal_match(error_text@),
{
    let n = to_ascii_lowercase(error_text);
    let s = n.as_str();
    str_contains(s, "matched orders can't be canceled")
        || (str_contains(s, "matched") && str_contains(s, "cancel"))
        || (str_contains(s, "filled") && str_contains(s, "cancel"))
}

pub fn trade_builder_error_indicates_balance_or_allowance(error_text: &str) -> (r: bool)
    ensures
        r == contains(lower(error_text@), "not enough balance / allowance"@),
{
    let n = to_ascii_lowercase(error_text);
    str_contains(n.as_str(), "not enough balance / allowance")
}

pub fn trade_builder_error_indicates_midpoint_not_found(error_text: &str) -> (r: bool)
    ensures
        r == (contains(lower(error_text@), "/midpoint"@) && contains(lower(error_text@), "404"@)),
{
    let n = to_ascii_lowercase(error_text);
    str_contains(n.as_str(), "/midpoint") && str_contains(n.as_str(), "404")
}

/// Rejections after which retrying an order cannot help.
pub open spec fn spec_is_fatal_exchange_rejection(e: Seq<char>) -> bool {
    let n = lower(e);
    ||| contains(n, "invalid signature"@)
    ||| contains(n, "signature verification failed"@)
    ||| contains(n, "invalid api key"@)
    ||| contains(n, "api key not found"@)
    ||| contains(n, "unauthorized"@)
    ||| contains(n, "forbidden"@)
    ||| contains(n, "market not found"@)
    ||| contains(n, "market closed"@)
    ||| contains(n, "market resolved"@)
    ||| (contains(n, "orderbook"@) && contains(n, "does not exist"@))
}

pub fn trade_builder_error_is_fatal_exchange_rejection(error_text: &str) -> (r: bool)
    ensures
        r == spec_is_fatal_exchange_rejection(error_text@),
{
    let n = to_ascii_lowercase(error_text);
    let s = n.as_str();
    str_contains(s, "invalid signature") || str_contains(s, "signature verification failed")
        || str_contains(s, "invalid api key") || str_contains(s, "api key not found")
        || str_contains(s, "unauthorized") || str_contains(s, "forbidden")
        || str_contains(s, "market not found") || str_contains(s, "market closed")
        || str_contains(s, "market resolved")
        || (str_contains(s, "orderbook") && str_contains(s, "does not exist"))
}

/// Whether a failed exit sell is retried: a share-sized sell whose last
/// error is not a fatal rejection.
pub open spec fn spec_should_retry_exit_sell(order: &TradeBuilderOrder) -> bool {
    &&& order.side@ == "sell"@
    &&& spec_normalize_size_basis(order.size_basis@) == TRADE_BUILDER_SIZE_BASIS_SHARES@
    &&& !(crate::order::opt_text(order.last_error) matches Some(e) && spec_is_fatal_exchange_rejection(e))
}

pub fn trade_builder_should_retry_exit_sell(order: &TradeBuilderOrder) -> (r: bool)
    ensures
        r == spec_should_retry_exit_sell(order),
{
    if !str_eq(order.side.as_str(), "sell") {
        return false;
    }
    let basis = normalize_trade_builder_size_basis(order.size_basis.as_str());
    if !str_eq(basis, TRADE_BUILDER_SIZE_BASIS_SHARES) {
        return false;
    }
    match &order.last_error {
        Some(e) => !trade_builder_error_is_fatal_exchange_rejection(e.as_str()),
        None => true,
    }
}

/// Whether a failed order-warmup call puts warmups on cooldown: after three
/// failures in a row, or on rate-limit and authorization errors.
pub open spec fn spec_warmup_requires_cooldown(e: Seq<char>, consecutive_failures: u32) -> bool {
    let n = lower(e);
    ||| consecutive_failures >= 3
    ||| contains(n, "429"@)
    ||| contains(n, "too many requests"@)
    ||| contains(n, "rate limit"@)
    ||| contains(n, "401"@)
    ||| contains(n, "403"@)
    ||| contains(n, "unauthorized"@)
    ||| contains(n, "forbidden"@)
}

pub fn clob_order_warmup_error_requires_cooldown(error_text: &str, consecutive_failures: u32) -> (r: bool)
    ensures
        r == spec_warmup_requires_cooldown(error_text@, consecutive_failures),
{
    let n = to_ascii_lowercase(error_text);
    let s = n.as_str();
    consecutive_failures >= 3 || str_contains(s, "429") || str_contains(s, "too many requests")
        || str_contains(s, "rate limit") || str_contains(s, "401") || str_contains(s, "403")
        || str_contains(s, "unauthorized") || str_contains(s, "forbidden")
}

/// The marker of a stage: `[exit_submit_stage=<name>]`.
pub open spec fn stage_marker(stage: TradeBuilderExitSubmitStage) -> Seq<char> {
    TRADE_BUILDER_EXIT_STAGE_MARKER_PREFIX@ + spec_stage_name(stage) + "]"@
}

proof fn lemma_marker_texts()
    ensures
        TRADE_BUILDER_EXIT_STAGE_MARKER_PREFIX@.len() == 19,
        TRADE_BUILDER_EXIT_STAGE_MARKER_PREFIX@[0] == '[',
        forall|k: int| 0 <= k < 19 ==> TRADE_BUILDER_EXIT_STAGE_MARKER_PREFIX@[k] != ' ',
        forall|k: int| 1 <= k < 19 ==> TRADE_BUILDER_EXIT_STAGE_MARKER_PREFIX@[k] != '[',
        "[exit_submit_stage=visible_inventory]"@ == stage_marker(TradeBuilderExitSubmitStage::VisibleInventory),
        "[exit_submit_stage=estimated_visible]"@ == stage_marker(TradeBuilderExitSubmitStage::EstimatedVisible),
        "[exit_submit_stage=dynamic_gross]"@ == stage_marker(TradeBuilderExitSubmitStage::DynamicGross),
        forall|s: TradeBuilderExitSubmitStage, k: int| 0 <= k < spec_stage_name(s).len() ==> #[trigger] spec_stage_name(s)[k] != '[',
        spec_stage_name(TradeBuilderExitSubmitStage::VisibleInventory).len() == 17,
        spec_stage_name(TradeBuilderExitSubmitStage::EstimatedVisible).len() == 17,
        spec_stage_name(TradeBuilderExitSubmitStage::DynamicGross).len() == 13,
        spec_stage_name(TradeBuilderExitSubmitStage::VisibleInventory)[0] == 'v',
        spec_stage_name(TradeBuilderExitSubmitStage::EstimatedVisible)[0] == 'e',
        spec_stage_name(TradeBuilderExitSubmitStage::DynamicGross)[0] == 'd',
        "]"@ == seq![']'],
        " "@ == seq![' '],
{
    reveal_strlit("[exit_submit_stage=");
    reveal_strlit("[exit_submit_stage=visible_inventory]");
    reveal_strlit("[exit_submit_stage=estimated_visible]");
    reveal_strlit("[exit_submit_stage=dynamic_gross]");
    reveal_strlit("visible_inventory");
    reveal_strlit("estimated_visible");
    reveal_strlit("dynamic_gross");
    reveal_strlit("]");
    reveal_strlit(" ");
    assert("[exit_submit_stage=visible_inventory]"@ =~= stage_marker(TradeBuilderExitSubmitStage::VisibleInventory));
    assert("[exit_submit_stage=estimated_visible]"@ =~= stage_marker(TradeBuilderExitSubmitStage::EstimatedVisible));
    assert("[exit_submit_stage=dynamic_gross]"@ =~= stage_marker(TradeBuilderExitSubmitStage::DynamicGross));
}

/// In a retry text over an error text without any stage marker, a marker
/// prefix starts only where the appended marker does.
proof fn lemma_prefix_only_at_marker(error_text: Seq<char>, stage: TradeBuilderExitSubmitStage, i: int)
    requires
        !contains(error_text, TRADE_BUILDER_EXIT_STAGE_MARKER_PREFIX@),
        occurs_at(spec_retry_error_text(error_text, Some(stage)), TRADE_BUILDER_EXIT_STAGE_MARKER_PREFIX@, i),
    ensures
        i == trim(error_text).len() + 1,
{
    lemma_marker_texts();
    let p = TRADE_BUILDER_EXIT_STAGE_MARKER_PREFIX@;
    let t = trim(error_text);
    let u = stage_marker(stage);
    let full = spec_retry_error_text(error_text, Some(stage));
    assert(full =~= t + (" "@ + u));
    assert(full.len() == t.len() + 1 + u.len());
    assert(full.subrange(i, i + p.len()) == p);
    if i + p.len() <= t.len() {
        assert(t.subrange(i, i + p.len()) =~= full.subrange(i, i + p.len()));
        assert(occurs_at(t, p, i));
        if !contains(error_text, p) {
            assert(contains(t, p));
            lemma_contains_trim(error_text, p);
        }
    } else if i <= t.len() {
        let d = t.len() - i;
        assert(full[t.len() as int] == ' ');
        assert(full.subrange(i, i + p.len())[d] == full[t.len() as int]);
        assert(p[d] != ' ');
    } else {
        let j = i - t.len() - 1;
        assert(full[i] == p[0]);
        assert(full[i] == u[j]);
        let name = spec_stage_name(stage);
        if j >= 1 {
            if j < 19 {
                assert(u[j] == p[j]);
            } else if j < 19 + name.len() {
                assert(u[j] == name[j - 19]);
            } else {
                assert(u[j] == ']');
            }
        }
    }
}

proof fn lemma_other_marker_absent(error_text: Seq<char>, stage: TradeBuilderExitSubmitStage, x: TradeBuilderExitSubmitStage)
    requires
        !contains(error_text, TRADE_BUILDER_EXIT_STAGE_MARKER_PREFIX@),
        x != stage,
    ensures
        !contains(spec_retry_error_text(error_text, Some(stage)), stage_marker(x)),
{
    lemma_marker_texts();
    let p = TRADE_BUILDER_EXIT_STAGE_MARKER_PREFIX@;
    let t = trim(error_text);
    let u = stage_marker(stage);
    let full = spec_retry_error_text(error_text, Some(stage));
    assert(full =~= t + (" "@ + u));
    let at: int = t.len() as int + 1;
    if contains(full, stage_marker(x)) {
        let m = stage_marker(x);
        let i = choose|i: int| occurs_at(full, m, i);
        assert(full.subrange(i, i + p.len()) =~= m.subrange(0, p.len() as int));
        assert(m.subrange(0, p.len() as int) =~= p);
        assert(occurs_at(full, p, i));
        lemma_prefix_only_at_marker(error_text, stage, i);
        assert(full.subrange(at, at + m.len()) == m);
        let nx = spec_stage_name(x);
        let ns = spec_stage_name(stage);
        if m.len() > u.len() {
            assert(at + m.len() > full.len());
        } else {
            assert(m[19] == nx[0]);
            assert(full.subrange(at, at + m.len())[19] == full[at + 19]);
            assert(full[at + 19] == u[19]);
            assert(u[19] == ns[0]);
            assert(nx[0] != ns[0]);
        }
    }
}

/// Law: the stage that a retry appends to an error text is the stage read
/// back from it, when the error text carried no stage marker of its own.
pub proof fn law_retry_text_records_stage(error_text: Seq<char>, stage: TradeBuilderExitSubmitStage)
    requires
        !contains(error_text, TRADE_BUILDER_EXIT_STAGE_MARKER_PREFIX@),
    ensures
        spec_stage_from_last_error(Some(spec_retry_error_text(error_text, Some(stage)))) == Some(stage),
{
    lemma_marker_texts();
    let t = trim(error_text);
    let u = stage_marker(stage);
    let full = spec_retry_error_text(error_text, Some(stage));
    assert(full =~= t + (" "@ + u));
    let at: int = t.len() as int + 1;
    assert(full.subrange(at, at + u.len()) =~= u);
    assert(occurs_at(full, u, at));
    match stage {
        TradeBuilderExitSubmitStage::VisibleInventory => {},
        TradeBuilderExitSubmitStage::EstimatedVisible => {
            lemma_other_marker_absent(error_text, stage, TradeBuilderExitSubmitStage::VisibleInventory);
        },
        TradeBuilderExitSubmitStage::DynamicGross => {
            lemma_other_marker_absent(error_text, stage, TradeBuilderExitSubmitStage::VisibleInventory);
            lemma_other_marker_absent(error_text, stage, TradeBuilderExitSubmitStage::EstimatedVisible);
        },
    }
}

} // verus!
