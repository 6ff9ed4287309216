//! The lookups that rebuild a trade's rows from the exchange's official
//! activity, as a state machine: each step takes what the last lookup gave
//! and says which lookup comes next, or how the rows are to be made. The
//! lookups themselves (the store's counts of filled roots, the user's
//! wallet, the activity feed) are made by the caller.
use vstd::prelude::*;
use crate::official_pnl::{
    DataApiActivity, AutoScopeOfficialLedger, AutoScopeOfficialMarketLedger, spec_official_ledger,
    spec_official_market_ledger, trade_builder_analysis_official_ledger, trade_builder_analysis_official_market_ledger,
};

verus! {

/// Which lookup a reconciliation waits for.
#[derive(PartialEq, Eq, Structural, Clone, Copy)]
pub enum OfficialPnlStage {
    Start,
    TokenRoots,
    MarketRoots,
    Wallet,
    Activity,
    Rows,
    Done,
}

/// Why a reconciliation keeps the library's own rows: a lookup failed, the
/// user has no wallet, the activity cannot be told apart from another root
/// on the same token, the activity shows no buy, or the redemption does
/// not fit what is left.
#[derive(PartialEq, Eq, Structural, Clone, Copy)]
pub enum OfficialPnlFallback {
    LookupFailed,
    WalletMissing,
    Ambiguous,
    MissingBuy,
    RedeemUnmatched,
}

impl OfficialPnlFallback {
    /// The data-quality flag the reason adds.
    pub fn flag(&self) -> (r: &'static str)
        ensures
            r@ == spec_fallback_flag(*self),
    {
        match self {
            OfficialPnlFallback::LookupFailed => "official_activity_lookup_failed",
            OfficialPnlFallback::WalletMissing => "official_wallet_missing",
            OfficialPnlFallback::Ambiguous => "official_activity_ambiguous",
            OfficialPnlFallback::MissingBuy => "official_activity_missing_buy",
            OfficialPnlFallback::RedeemUnmatched => "official_redeem_unmatched",
        }
    }
}

pub open spec fn spec_fallback_flag(f: OfficialPnlFallback) -> Seq<char> {
    match f {
        OfficialPnlFallback::LookupFailed => "official_activity_lookup_failed"@,
        OfficialPnlFallback::WalletMissing => "official_wallet_missing"@,
        OfficialPnlFallback::Ambiguous => "official_activity_ambiguous"@,
        OfficialPnlFallback::MissingBuy => "official_activity_missing_buy"@,
        OfficialPnlFallback::RedeemUnmatched => "official_redeem_unmatched"@,
    }
}

/// Where a reconciliation stands: the lookup it waits for, how many filled
/// roots trade the same token, whether other roots trade the same market
/// (the rows then need a market scope), and the market's ledger once the
/// activity was read.
pub struct OfficialPnlState {
    pub stage: OfficialPnlStage,
    pub root_count: i64,
    pub market_scope_required: bool,
    pub market_ledger: Option<AutoScopeOfficialMarketLedger>,
}

/// What a lookup gave: a count (`None` where the lookup failed), whether
/// the user's settings loaded and name a wallet, the market's activity
/// (`None` where the feed failed), or whether rows could be built from the
/// token's ledger.
pub enum OfficialPnlEvent {
    Start,
    TokenRootCount(Option<i64>),
    MarketRootCount(Option<i64>),
    Wallet { config_loaded: bool, wallet_found: bool },
    Activity(Option<Vec<DataApiActivity>>),
    RowsBuilt(bool),
}

/// What the caller does next: make a lookup, build rows from the token's
/// ledger, or finish. Finishing keeps the library's rows for a reason, or
/// takes the built rows; either way the market-scope flag and the market's
/// ledger (where read) go into the reconciliation.
pub enum OfficialPnlAction {
    CountTokenRoots,
    CountMarketRoots,
    LoadWallet,
    ListActivity,
    BuildRows(AutoScopeOfficialLedger),
    Fallback {
        reason: OfficialPnlFallback,
        market_scope_required: bool,
        market_ledger: Option<AutoScopeOfficialMarketLedger>,
    },
    UseRows { market_scope_required: bool, market_ledger: Option<AutoScopeOfficialMarketLedger> },
    Ignore,
}

/// The mathematical form of an event: the activity by its sequence.
pub enum OfficialPnlEventView {
    Start,
    TokenRootCount(Option<i64>),
    MarketRootCount(Option<i64>),
    Wallet { config_loaded: bool, wallet_found: bool },
    Activity(Option<Seq<DataApiActivity>>),
    RowsBuilt(bool),
}

impl View for OfficialPnlEvent {
    type V = OfficialPnlEventView;

    open spec fn view(&self) -> OfficialPnlEventView {
        match *self {
            OfficialPnlEvent::Start => OfficialPnlEventView::Start,
            OfficialPnlEvent::TokenRootCount(c) => OfficialPnlEventView::TokenRootCount(c),
            OfficialPnlEvent::MarketRootCount(c) => OfficialPnlEventView::MarketRootCount(c),
            OfficialPnlEvent::Wallet { config_loaded, wallet_found } => OfficialPnlEventView::Wallet { config_loaded, wallet_found },
            OfficialPnlEvent::Activity(a) => OfficialPnlEventView::Activity(
                match a {
                    Some(v) => Some(v@),
                    None => None,
                },
            ),
            OfficialPnlEvent::RowsBuilt(b) => OfficialPnlEventView::RowsBuilt(b),
        }
    }
}

/// The state before any lookup.
pub open spec fn spec_official_pnl_initial() -> OfficialPnlState {
    OfficialPnlState { stage: OfficialPnlStage::Start, root_count: 0, market_scope_required: false, market_ledger: None }
}

pub fn official_pnl_initial_state() -> (r: OfficialPnlState)
    ensures
        r == spec_official_pnl_initial(),
{
    OfficialPnlState { stage: OfficialPnlStage::Start, root_count: 0, market_scope_required: false, market_ledger: None }
}

pub open spec fn with_stage(s: OfficialPnlState, stage: OfficialPnlStage) -> OfficialPnlState {
    OfficialPnlState { stage, ..s }
}

pub open spec fn finish_fallback(s: OfficialPnlState, reason: OfficialPnlFallback) -> (OfficialPnlState, OfficialPnlAction) {
    (
        with_stage(s, OfficialPnlStage::Done),
        OfficialPnlAction::Fallback { reason, market_scope_required: s.market_scope_required, market_ledger: s.market_ledger },
    )
}

/// One step of the reconciliation. It counts the filled roots on the
/// token, then on the market (more than one there asks for a market
/// scope), then loads the user's wallet, then reads the market's activity
/// and keeps the market's ledger; more than one root on the token makes
/// the activity ambiguous, and a token ledger with no bought quantity or
/// no bought amount is missing its buy; else rows are built from the
/// token's ledger, and a redemption that does not fit leaves the library's
/// rows. A failed lookup leaves the library's rows at once. An event that
/// does not answer the awaited lookup changes nothing.
pub open spec fn spec_official_pnl_step(s: OfficialPnlState, e: OfficialPnlEventView, token_id: Seq<char>) -> (OfficialPnlState, OfficialPnlAction) {
    match (s.stage, e) {
        (OfficialPnlStage::Start, OfficialPnlEventView::Start) =>
            (with_stage(s, OfficialPnlStage::TokenRoots), OfficialPnlAction::CountTokenRoots),
        (OfficialPnlStage::TokenRoots, OfficialPnlEventView::TokenRootCount(c)) => match c {
            None => finish_fallback(s, OfficialPnlFallback::LookupFailed),
            Some(n) => (
                OfficialPnlState { stage: OfficialPnlStage::MarketRoots, root_count: n, ..s },
                OfficialPnlAction::CountMarketRoots,
            ),
        },
        (OfficialPnlStage::MarketRoots, OfficialPnlEventView::MarketRootCount(c)) => match c {
            None => finish_fallback(s, OfficialPnlFallback::LookupFailed),
            Some(n) => (
                OfficialPnlState { stage: OfficialPnlStage::Wallet, market_scope_required: n > 1, ..s },
                OfficialPnlAction::LoadWallet,
            ),
        },
        (OfficialPnlStage::Wallet, OfficialPnlEventView::Wallet { config_loaded, wallet_found }) =>
            if !config_loaded {
                finish_fallback(s, OfficialPnlFallback::LookupFailed)
            } else if !wallet_found {
                finish_fallback(s, OfficialPnlFallback::WalletMissing)
            } else {
                (with_stage(s, OfficialPnlStage::Activity), OfficialPnlAction::ListActivity)
            },
        (OfficialPnlStage::Activity, OfficialPnlEventView::Activity(a)) => match a {
            None => finish_fallback(s, OfficialPnlFallback::LookupFailed),
            Some(acts) => {
                let s2 = OfficialPnlState { market_ledger: Some(spec_official_market_ledger(acts)), ..s };
                let ledger = spec_official_ledger(acts, token_id);
                if s.root_count > 1 {
                    finish_fallback(s2, OfficialPnlFallback::Ambiguous)
                } else if ledger.buy_qty <= 0 || ledger.buy_usdc <= 0 {
                    finish_fallback(s2, OfficialPnlFallback::MissingBuy)
                } else {
                    (with_stage(s2, OfficialPnlStage::Rows), OfficialPnlAction::BuildRows(ledger))
                }
            },
        },
        (OfficialPnlStage::Rows, OfficialPnlEventView::RowsBuilt(built)) =>
            if built {
                (
                    with_stage(s, OfficialPnlStage::Done),
                    OfficialPnlAction::UseRows { market_scope_required: s.market_scope_required, market_ledger: s.market_ledger },
                )
            } else {
                finish_fallback(s, OfficialPnlFallback::RedeemUnmatched)
            },
        _ => (s, OfficialPnlAction::Ignore),
    }
}

fn fallback_step(s: OfficialPnlState, reason: OfficialPnlFallback) -> (r: (OfficialPnlState, OfficialPnlAction))
    ensures
        r == finish_fallback(s, reason),
{
    let scope = s.market_scope_required;
    let market_ledger = s.market_ledger;
    (
        OfficialPnlState { stage: OfficialPnlStage::Done, ..s },
        OfficialPnlAction::Fallback { reason, market_scope_required: scope, market_ledger },
    )
}

/// One step of the reconciliation of the trade whose root bought
/// `token_id` (see `spec_official_pnl_step`).
pub fn official_pnl_rows_step(state: OfficialPnlState, event: OfficialPnlEvent, token_id: &str) -> (r: (OfficialPnlState, OfficialPnlAction))
    requires
        event matches OfficialPnlEvent::Activity(Some(acts)) ==> acts.len() <= 0x100_0000_0000_0000,
    ensures
        r == spec_official_pnl_step(state, event@, token_id@),
{
    match (state.stage, event) {
        (OfficialPnlStage::Start, OfficialPnlEvent::Start) =>
            (OfficialPnlState { stage: OfficialPnlStage::TokenRoots, ..state }, OfficialPnlAction::CountTokenRoots),
        (OfficialPnlStage::TokenRoots, OfficialPnlEvent::TokenRootCount(c)) => match c {
            None => fallback_step(state, OfficialPnlFallback::LookupFailed),
            Some(n) => (
                OfficialPnlState { stage: OfficialPnlStage::MarketRoots, root_count: n, ..state },
                OfficialPnlAction::CountMarketRoots,
            ),
        },
        (OfficialPnlStage::MarketRoots, OfficialPnlEvent::MarketRootCount(c)) => match c {
            None => fallback_step(state, OfficialPnlFallback::LookupFailed),
            Some(n) => (
                OfficialPnlState { stage: OfficialPnlStage::Wallet, market_scope_required: n > 1, ..state },
                OfficialPnlAction::LoadWallet,
            ),
        },
        (OfficialPnlStage::Wallet, OfficialPnlEvent::Wallet { config_loaded, wallet_found }) =>
            if !config_loaded {
                fallback_step(state, OfficialPnlFallback::LookupFailed)
            } else if !wallet_found {
                fallback_step(state, OfficialPnlFallback::WalletMissing)
            } else {
                (OfficialPnlState { stage: OfficialPnlStage::Activity, ..state }, OfficialPnlAction::ListActivity)
            },
        (OfficialPnlStage::Activity, OfficialPnlEvent::Activity(a)) => match a {
            None => fallback_step(state, OfficialPnlFallback::LookupFailed),
            Some(acts) => {
                let market_ledger = trade_builder_analysis_official_market_ledger(acts.as_slice());
                let ledger = trade_builder_analysis_official_ledger(acts.as_slice(), token_id);
                let root_count = state.root_count;
                let s2 = OfficialPnlState { market_ledger: Some(market_ledger), ..state };
                if root_count > 1 {
                    fallback_step(s2, OfficialPnlFallback::Ambiguous)
                } else if ledger.buy_qty <= 0 || ledger.buy_usdc <= 0 {
                    fallback_step(s2, OfficialPnlFallback::MissingBuy)
                } else {
                    (OfficialPnlState { stage: OfficialPnlStage::Rows, ..s2 }, OfficialPnlAction::BuildRows(ledger))
                }
            },
        },
        (OfficialPnlStage::Rows, OfficialPnlEvent::RowsBuilt(built)) =>
            if built {
                let scope = state.market_scope_required;
                let market_ledger = state.market_ledger;
                (
                    OfficialPnlState { stage: OfficialPnlStage::Done, ..state },
                    OfficialPnlAction::UseRows { market_scope_required: scope, market_ledger },
                )
            } else {
                fallback_step(state, OfficialPnlFallback::RedeemUnmatched)
            },
        (_, _) => (state, OfficialPnlAction::Ignore),
    }
}

/// Law: a reconciliation builds official rows only from activity that was
/// read, for a token no other filled root trades, and from a token ledger
/// that shows a bought quantity and a bought amount; it reports an
/// ambiguous activity only when other roots trade the token and a missing
/// buy only when the ledger lacks one; it takes the built rows only once
/// they were built; a market with more than one filled root asks for a
/// market scope; every fallback ends the reconciliation.
pub proof fn law_official_pnl_step_decisions(s: OfficialPnlState, e: OfficialPnlEventView, token_id: Seq<char>)
    ensures
        ({
            let (next, action) = spec_official_pnl_step(s, e, token_id);
            &&& action is BuildRows ==> {
                &&& e matches OfficialPnlEventView::Activity(Some(acts))
                &&& s.stage == OfficialPnlStage::Activity
                &&& s.root_count <= 1
                &&& action->BuildRows_0 == spec_official_ledger(acts, token_id)
                &&& action->BuildRows_0.buy_qty > 0 && action->BuildRows_0.buy_usdc > 0
                &&& next.market_ledger == Some(spec_official_market_ledger(acts))
            }
            &&& action matches OfficialPnlAction::Fallback { reason, .. } ==> {
                &&& next.stage == OfficialPnlStage::Done
                &&& reason == OfficialPnlFallback::Ambiguous ==> s.root_count > 1
                &&& reason == OfficialPnlFallback::MissingBuy ==> (e matches OfficialPnlEventView::Activity(Some(acts))
                    && (spec_official_ledger(acts, token_id).buy_qty <= 0 || spec_official_ledger(acts, token_id).buy_usdc <= 0))
                &&& reason == OfficialPnlFallback::RedeemUnmatched ==> e == OfficialPnlEventView::RowsBuilt(false)
            }
            &&& action is UseRows ==> (s.stage == OfficialPnlStage::Rows && e == OfficialPnlEventView::RowsBuilt(true))
            &&& (e matches OfficialPnlEventView::MarketRootCount(Some(n))
                ==> (s.stage == OfficialPnlStage::MarketRoots ==> next.market_scope_required == (n > 1)))
        }),
{
}

} // verus!
