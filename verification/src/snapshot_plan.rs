//! Refreshing the analysis snapshot of a root buy: the lookups that decide
//! whether there is a trade to analyse (and why not), as a state machine,
//! and the allocation of the trade's sell fills against its buy. The
//! lookups themselves are made by the caller. Quantities in millionths of a
//! share unless said otherwise.
use vstd::prelude::*;
use crate::flow::TradeFlowGraphRuntime;
use crate::graph::{spec_has_upstream_auto_scope_trigger, trade_builder_analysis_has_upstream_auto_scope_trigger};
use crate::analysis_pnl::{
    AutoScopeAnalysisSellFillAllocation, spec_allocate_sell_fill, share_hundredths,
    trade_builder_analysis_allocate_sell_fill, law_sell_allocation_conserves_quantity,
};
use crate::text::{str_eq, trim, trimmed_non_empty};

verus! {

broadcast use vstd::string::group_string_axioms;

/// What the root order of a refresh says of itself.
pub struct SnapshotRootOrder {
    pub side: String,
    pub parent_order_id: Option<i64>,
    pub origin_flow_run_id: Option<i64>,
    pub origin_flow_node_key: Option<String>,
}

/// Which lookup a refresh waits for.
#[derive(PartialEq, Eq, Structural, Clone, Copy)]
pub enum SnapshotStage {
    Start,
    RootOrder,
    Run,
    Version,
    BuyMetrics,
    Done,
}

/// Where a refresh stands: the lookup it waits for and the action node
/// key of the root order (trimmed), once read.
pub struct SnapshotGateState {
    pub stage: SnapshotStage,
    pub action_node_key: Option<String>,
}

/// What a lookup gave: the root order (where found), whether its flow run
/// was found, the graph of the run's version (where found), and the
/// metrics of the root's buy fills.
pub enum SnapshotEvent {
    Start,
    RootOrder(Option<SnapshotRootOrder>),
    Run(bool),
    Version(Option<TradeFlowGraphRuntime>),
    BuyMetrics { avg_price: Option<i64>, qty: i64 },
}

/// What the caller does next: a lookup, skip the refresh for a reason, or
/// build the rows.
pub enum SnapshotAction {
    FetchRootOrder,
    FetchRun(i64),
    FetchVersion,
    FetchBuyMetrics,
    Skip(&'static str),
    BuildRows,
    Ignore,
}

/// The mathematical form of an action.
pub enum SnapshotActionView {
    FetchRootOrder,
    FetchRun(i64),
    FetchVersion,
    FetchBuyMetrics,
    Skip(Seq<char>),
    BuildRows,
    Ignore,
}

impl View for SnapshotAction {
    type V = SnapshotActionView;

    open spec fn view(&self) -> SnapshotActionView {
        match *self {
            SnapshotAction::FetchRootOrder => SnapshotActionView::FetchRootOrder,
            SnapshotAction::FetchRun(id) => SnapshotActionView::FetchRun(id),
            SnapshotAction::FetchVersion => SnapshotActionView::FetchVersion,
            SnapshotAction::FetchBuyMetrics => SnapshotActionView::FetchBuyMetrics,
            SnapshotAction::Skip(reason) => SnapshotActionView::Skip(reason@),
            SnapshotAction::BuildRows => SnapshotActionView::BuildRows,
            SnapshotAction::Ignore => SnapshotActionView::Ignore,
        }
    }
}

pub open spec fn opt_text(s: Option<String>) -> Option<Seq<char>> {
    match s {
        Some(t) => Some(t@),
        None => None,
    }
}

/// A root buy: a buy with no parent that a flow run placed.
pub open spec fn is_root_buy(o: SnapshotRootOrder) -> bool {
    o.side@ == "buy"@ && o.parent_order_id is None && o.origin_flow_run_id is Some
}

/// The trimmed action node key, where not empty.
pub open spec fn action_key_of(o: SnapshotRootOrder) -> Option<Seq<char>> {
    match o.origin_flow_node_key {
        Some(k) => if trim(k@).len() > 0 { Some(trim(k@)) } else { None },
        None => None,
    }
}

pub open spec fn skip_view(reason: Seq<char>) -> (SnapshotStage, Option<Seq<char>>, SnapshotActionView) {
    (SnapshotStage::Done, None, SnapshotActionView::Skip(reason))
}

/// One step of a refresh, as (stage, action node key, action). It reads
/// the root order (none found: `root_order_not_found`; not a root buy:
/// `not_root_buy_order`), then its flow run (`missing_flow_run`), then the
/// run's version (`missing_flow_version`); then the order must name an
/// action node (`missing_action_node_key`) that an auto-scope trigger
/// feeds in the graph (`missing_auto_scope_trigger`); then the buy must
/// have an average price (`missing_buy_fill_metrics`) and a positive
/// quantity (`zero_buy_fill_qty`), and the rows are built. An event that
/// does not answer the awaited lookup changes nothing.
pub open spec fn spec_snapshot_step(s: SnapshotGateState, e: SnapshotEvent) -> (SnapshotStage, Option<Seq<char>>, SnapshotActionView) {
    let key = opt_text(s.action_node_key);
    match (s.stage, e) {
        (SnapshotStage::Start, SnapshotEvent::Start) => (SnapshotStage::RootOrder, key, SnapshotActionView::FetchRootOrder),
        (SnapshotStage::RootOrder, SnapshotEvent::RootOrder(o)) => match o {
            None => skip_view("root_order_not_found"@),
            Some(order) => if !is_root_buy(order) {
                skip_view("not_root_buy_order"@)
            } else {
                (SnapshotStage::Run, action_key_of(order), SnapshotActionView::FetchRun(order.origin_flow_run_id->0))
            },
        },
        (SnapshotStage::Run, SnapshotEvent::Run(found)) =>
            if found { (SnapshotStage::Version, key, SnapshotActionView::FetchVersion) } else { skip_view("missing_flow_run"@) },
        (SnapshotStage::Version, SnapshotEvent::Version(g)) => match g {
            None => skip_view("missing_flow_version"@),
            Some(graph) => match key {
                None => skip_view("missing_action_node_key"@),
                Some(k) => if !spec_has_upstream_auto_scope_trigger(graph.nodes@, graph.edges@, k) {
                    skip_view("missing_auto_scope_trigger"@)
                } else {
                    (SnapshotStage::BuyMetrics, key, SnapshotActionView::FetchBuyMetrics)
                },
            },
        },
        (SnapshotStage::BuyMetrics, SnapshotEvent::BuyMetrics { avg_price, qty }) =>
            if avg_price is None {
                skip_view("missing_buy_fill_metrics"@)
            } else if qty <= 0 {
                skip_view("zero_buy_fill_qty"@)
            } else {
                (SnapshotStage::Done, key, SnapshotActionView::BuildRows)
            },
        _ => (s.stage, key, SnapshotActionView::Ignore),
    }
}

pub open spec fn step_view(r: (SnapshotGateState, SnapshotAction)) -> (SnapshotStage, Option<Seq<char>>, SnapshotActionView) {
    (r.0.stage, opt_text(r.0.action_node_key), r.1@)
}

fn skip(reason: &'static str) -> (r: (SnapshotGateState, SnapshotAction))
    ensures
        step_view(r) == skip_view(reason@),
{
    (SnapshotGateState { stage: SnapshotStage::Done, action_node_key: None }, SnapshotAction::Skip(reason))
}

/// The state before any lookup.
pub fn snapshot_gate_initial() -> (r: SnapshotGateState)
    ensures
        r.stage == SnapshotStage::Start,
        r.action_node_key is None,
{
    SnapshotGateState { stage: SnapshotStage::Start, action_node_key: None }
}

/// One step of an analysis refresh (see `spec_snapshot_step`).
pub fn plan_auto_scope_analysis_snapshot_step(state: SnapshotGateState, event: SnapshotEvent) -> (r: (SnapshotGateState, SnapshotAction))
    ensures
        step_view(r) == spec_snapshot_step(state, event),
{
    let stage = state.stage;
    match (stage, event) {
        (SnapshotStage::Start, SnapshotEvent::Start) =>
            (SnapshotGateState { stage: SnapshotStage::RootOrder, action_node_key: state.action_node_key }, SnapshotAction::FetchRootOrder),
        (SnapshotStage::RootOrder, SnapshotEvent::RootOrder(o)) => match o {
            None => skip("root_order_not_found"),
            Some(order) => {
                let root_buy = str_eq(order.side.as_str(), "buy") && order.parent_order_id.is_none() && order.origin_flow_run_id.is_some();
                if !root_buy {
                    return skip("not_root_buy_order");
                }
                let run_id = match order.origin_flow_run_id {
                    Some(id) => id,
                    None => 0,
                };
                let key = match &order.origin_flow_node_key {
                    Some(k) => trimmed_non_empty(k.as_str()),
                    None => None,
                };
                (SnapshotGateState { stage: SnapshotStage::Run, action_node_key: key }, SnapshotAction::FetchRun(run_id))
            },
        },
        (SnapshotStage::Run, SnapshotEvent::Run(found)) =>
            if found {
                (SnapshotGateState { stage: SnapshotStage::Version, action_node_key: state.action_node_key }, SnapshotAction::FetchVersion)
            } else {
                skip("missing_flow_run")
            },
        (SnapshotStage::Version, SnapshotEvent::Version(g)) => match g {
            None => skip("missing_flow_version"),
            Some(graph) => match &state.action_node_key {
                None => skip("missing_action_node_key"),
                Some(k) => {
                    if !trade_builder_analysis_has_upstream_auto_scope_trigger(&graph, k.as_str()) {
                        return skip("missing_auto_scope_trigger");
                    }
                    (SnapshotGateState { stage: SnapshotStage::BuyMetrics, action_node_key: state.action_node_key }, SnapshotAction::FetchBuyMetrics)
                },
            },
        },
        (SnapshotStage::BuyMetrics, SnapshotEvent::BuyMetrics { avg_price, qty }) =>
            if avg_price.is_none() {
                skip("missing_buy_fill_metrics")
            } else if qty <= 0 {
                skip("zero_buy_fill_qty")
            } else {
                (SnapshotGateState { stage: SnapshotStage::Done, action_node_key: state.action_node_key }, SnapshotAction::BuildRows)
            },
        (_, _) => (state, SnapshotAction::Ignore),
    }
}

/// The allocation of a trade's sell fills against its buy, and the sell
/// summary: what was sold, what was allocated and what was ignored (in
/// millionths of a share, each a whole number of hundredths).
pub struct AutoScopeSellAllocationRound {
    pub allocations: Vec<AutoScopeAnalysisSellFillAllocation>,
    pub observed_sell_qty: i128,
    pub allocated_sold_qty: i128,
    pub ignored_sell_qty: i128,
}

/// The allocations of the sells, in order, and the observed, ignored and
/// allocated totals in hundredths of a share: each sell (rounded to
/// hundredths) is allocated against what the buy has left after the sells
/// before it.
pub open spec fn spec_sell_allocation_fold(buy_qty: i64, sells: Seq<i64>) -> (Seq<AutoScopeAnalysisSellFillAllocation>, int, int, int)
    decreases sells.len(),
{
    if sells.len() == 0 {
        (Seq::empty(), 0, 0, 0)
    } else {
        let (allocs, observed, ignored, allocated) = spec_sell_allocation_fold(buy_qty, sells.drop_last());
        let a = spec_allocate_sell_fill(buy_qty, (allocated * 10_000) as i64, sells.last());
        (
            allocs.push(a),
            observed + share_hundredths(sells.last() as int),
            ignored + a.ignored_qty,
            allocated + a.allocated_qty,
        )
    }
}

proof fn lemma_fold_bounds(buy_qty: i64, sells: Seq<i64>)
    requires
        buy_qty <= i64::MAX - 10_000,
    ensures
        ({
            let (allocs, observed, ignored, allocated) = spec_sell_allocation_fold(buy_qty, sells);
            &&& allocs.len() == sells.len()
            &&& 0 <= allocated
            &&& allocated * 10_000 <= (if buy_qty > 0 { buy_qty as int } else { 0 }) + 5_000
            &&& 0 <= observed <= sells.len() * 0x10_0000_0000_0000
            &&& 0 <= ignored <= observed
        }),
    decreases sells.len(),
{
    if sells.len() > 0 {
        lemma_fold_bounds(buy_qty, sells.drop_last());
        let (allocs, observed, ignored, allocated) = spec_sell_allocation_fold(buy_qty, sells.drop_last());
        let prior = (allocated * 10_000) as i64;
        let a = spec_allocate_sell_fill(buy_qty, prior, sells.last());
        law_sell_allocation_conserves_quantity(buy_qty, prior, sells.last());
        let d = buy_qty - prior;
        let before = share_hundredths(d);
        assert(0 <= share_hundredths(sells.last() as int) <= 0x10_0000_0000_0000);
        if d > 0 {
            assert(before * 10_000 <= d + 5_000) by (nonlinear_arith)
                requires before == (d + 5_000) / 10_000, d > 0;
            assert(a.allocated_qty <= before);
            assert((allocated + a.allocated_qty) * 10_000 <= buy_qty + 5_000) by (nonlinear_arith)
                requires a.allocated_qty * 10_000 <= before * 10_000, before * 10_000 <= d + 5_000, d == buy_qty - allocated * 10_000;
        } else {
            assert(before == 0);
            assert(a.allocated_qty == 0);
        }
        assert((sells.len() - 1) * 0x10_0000_0000_0000 + 0x10_0000_0000_0000 == sells.len() * 0x10_0000_0000_0000) by (nonlinear_arith);
    }
}

/// Allocates a trade's sell fills, in order, against its buy of `buy_qty`
/// (see `spec_sell_allocation_fold`); the totals are in millionths.
pub fn auto_scope_sell_allocations(buy_qty: i64, sells: &[i64]) -> (r: AutoScopeSellAllocationRound)
    requires
        buy_qty <= i64::MAX - 10_000,
        sells.len() <= 0x100_0000,
    ensures
        ({
            let (allocs, observed, ignored, allocated) = spec_sell_allocation_fold(buy_qty, sells@);
            &&& r.allocations@ == allocs
            &&& r.observed_sell_qty == observed * 10_000
            &&& r.ignored_sell_qty == ignored * 10_000
            &&& r.allocated_sold_qty == allocated * 10_000
        }),
{
    let mut allocations: Vec<AutoScopeAnalysisSellFillAllocation> = Vec::new();
    let mut observed: i128 = 0;
    let mut ignored: i128 = 0;
    let mut allocated: i128 = 0;
    let mut i: usize = 0;
    while i < sells.len()
        invariant
            i <= sells.len(),
            sells.len() <= 0x100_0000,
            buy_qty <= i64::MAX - 10_000,
            ({
                let (allocs, o, g, a) = spec_sell_allocation_fold(buy_qty, sells@.take(i as int));
                &&& allocations@ == allocs
                &&& observed == o
                &&& ignored == g
                &&& allocated == a
            }),
        decreases sells.len() - i,
    {
        proof {
            assert(sells@.take(i + 1).drop_last() =~= sells@.take(i as int));
            assert(sells@.take(i + 1).last() == sells@[i as int]);
            lemma_fold_bounds(buy_qty, sells@.take(i as int));
            assert(i * 0x10_0000_0000_0000 <= 0x100_0000 * 0x10_0000_0000_0000) by (nonlinear_arith)
                requires i <= 0x100_0000;
        }
        let prior: i64 = (allocated * 10_000) as i64;
        let a = trade_builder_analysis_allocate_sell_fill(buy_qty, prior, sells[i]);
        proof {
            law_sell_allocation_conserves_quantity(buy_qty, prior, sells[i as int]);
        }
        let sold: i128 = if sells[i] <= 0 { 0 } else { ((sells[i] as i128) + 5_000) / 10_000 };
        observed = observed + sold;
        ignored = ignored + a.ignored_qty as i128;
        allocated = allocated + a.allocated_qty as i128;
        allocations.push(a);
        i = i + 1;
    }
    proof {
        assert(sells@.take(i as int) =~= sells@);
        lemma_fold_bounds(buy_qty, sells@);
    }
    AutoScopeSellAllocationRound {
        allocations,
        observed_sell_qty: observed * 10_000,
        allocated_sold_qty: allocated * 10_000,
        ignored_sell_qty: ignored * 10_000,
    }
}

/// The quantity a trade still holds after its allocated sells, in
/// hundredths of a share: the buy less what was allocated, rounded, never
/// negative.
pub fn auto_scope_remaining_qty(buy_qty: i64, allocated_sold_qty: i128) -> (r: i128)
    requires
        0 <= allocated_sold_qty <= 0x1_0000_0000_0000_0000,
    ensures
        r == share_hundredths(buy_qty - allocated_sold_qty),
{
    let d: i128 = buy_qty as i128 - allocated_sold_qty;
    if d <= 0 { 0 } else { (d + 5_000) / 10_000 }
}

proof fn lemma_remaining_hundredths(buy: int, a: int)
    requires
        a >= 0,
        a * 10_000 <= (if buy > 0 { buy } else { 0 }) + 5_000,
    ensures
        share_hundredths(buy - a * 10_000) == (if share_hundredths(buy) - a > 0 { share_hundredths(buy) - a } else { 0 }),
{
    let h = share_hundredths(buy);
    if buy <= 0 {
        assert(a == 0);
    } else if buy - a * 10_000 > 0 {
        assert((buy - a * 10_000 + 5_000) / 10_000 == (buy + 5_000) / 10_000 - a) by (nonlinear_arith)
            requires a >= 0, buy > 0;
    } else {
        assert((buy + 5_000) / 10_000 <= a) by (nonlinear_arith)
            requires a * 10_000 >= buy, a >= 0, buy > 0;
    }
}

/// Law: sells are allocated greedily against the buy. However the sells
/// fall, the allocated total is the smaller of what was sold and what was
/// bought (each rounded to hundredths of a share), the ignored total is the
/// rest of what was sold, and each sell splits, without loss, into its
/// allocated and ignored parts.
pub proof fn law_sell_allocations_are_greedy(buy_qty: i64, sells: Seq<i64>)
    requires
        buy_qty <= i64::MAX - 10_000,
    ensures
        ({
            let (allocs, observed, ignored, allocated) = spec_sell_allocation_fold(buy_qty, sells);
            let bought = share_hundredths(buy_qty as int);
            &&& allocated == (if observed <= bought { observed } else { bought })
            &&& ignored == observed - allocated
            &&& allocs.len() == sells.len()
            &&& forall|i: int| 0 <= i < sells.len() ==> #[trigger] allocs[i].allocated_qty + allocs[i].ignored_qty == share_hundredths(sells[i] as int)
        }),
    decreases sells.len(),
{
    if sells.len() > 0 {
        let p = sells.drop_last();
        law_sell_allocations_are_greedy(buy_qty, p);
        lemma_fold_bounds(buy_qty, p);
        let (allocs, observed, ignored, allocated) = spec_sell_allocation_fold(buy_qty, p);
        let prior = (allocated * 10_000) as i64;
        law_sell_allocation_conserves_quantity(buy_qty, prior, sells.last());
        lemma_remaining_hundredths(buy_qty as int, allocated);
        let (allocs2, o2, g2, a2) = spec_sell_allocation_fold(buy_qty, sells);
        assert forall|i: int| 0 <= i < sells.len() implies #[trigger] allocs2[i].allocated_qty + allocs2[i].ignored_qty == share_hundredths(sells[i] as int) by {
            if i < p.len() {
                assert(allocs2[i] == allocs[i]);
                assert(p[i] == sells[i]);
            }
        }
    }
}

/// Law: a refresh step builds rows only once the buy metrics show an
/// average price and a positive quantity; it looks up a flow run only for a
/// root buy, and then the run that placed it; it asks for the buy metrics
/// only once an auto-scope trigger feeds the order's action node in the
/// run's graph; a skip ends the refresh.
pub proof fn law_snapshot_step_gates(s: SnapshotGateState, e: SnapshotEvent)
    ensures
        ({
            let (stage, key, action) = spec_snapshot_step(s, e);
            &&& action is BuildRows ==> {
                &&& e matches SnapshotEvent::BuyMetrics { avg_price, qty }
                &&& avg_price is Some
                &&& qty > 0
                &&& s.stage == SnapshotStage::BuyMetrics
            }
            &&& action is FetchRun ==> {
                &&& e matches SnapshotEvent::RootOrder(Some(o))
                &&& o.side@ == "buy"@
                &&& o.parent_order_id is None
                &&& o.origin_flow_run_id == Some(action->FetchRun_0)
                &&& s.stage == SnapshotStage::RootOrder
            }
            &&& action is FetchBuyMetrics ==> {
                &&& e matches SnapshotEvent::Version(Some(g))
                &&& opt_text(s.action_node_key) is Some
                &&& spec_has_upstream_auto_scope_trigger(g.nodes@, g.edges@, opt_text(s.action_node_key)->0)
                &&& s.stage == SnapshotStage::Version
            }
            &&& action is Skip ==> stage == SnapshotStage::Done
            &&& (e matches SnapshotEvent::BuyMetrics { avg_price, qty } && avg_price is Some && qty > 0
                && s.stage == SnapshotStage::BuyMetrics) ==> action is BuildRows
        }),
{
}

} // verus!
