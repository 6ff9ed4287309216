use bot_runner::armed_cache::{sync_armed_builder_order_cache_entry, ArmedBuilderOrderCache};
use bot_runner::armed_eval::{
    armed_cycle_activity, decide_armed_order, evaluate_armed_orders_for_tokens,
    trade_builder_order_awaits_bid_confirmation, ArmedOrderDecision,
};
use bot_runner::cancel_reconcile::{plan_post_cancel_buy_fill, PostCancelBuyObservation, PostCancelFillPlan};
use bot_runner::flow::{TradeFlowEdge, TradeFlowGraphRuntime, TradeFlowNode};
use bot_runner::json::JsonValue;
use bot_runner::official_pnl::DataApiActivity;
use bot_runner::official_pnl_step::{
    official_pnl_initial_state, official_pnl_rows_step, OfficialPnlAction, OfficialPnlEvent, OfficialPnlFallback,
    OfficialPnlStage,
};
use bot_runner::order::{TradeBuilderOrder, TRADE_BUILDER_SIZE_BASIS_SHARES};
use bot_runner::runtime_price::TradeBuilderRuntimePrice;
use bot_runner::snapshot_plan::{
    auto_scope_remaining_qty, auto_scope_sell_allocations, plan_auto_scope_analysis_snapshot_step,
    snapshot_gate_initial, SnapshotAction, SnapshotEvent, SnapshotGateState, SnapshotRootOrder, SnapshotStage,
};

const SHARE: i64 = 1_000_000;

fn observation() -> PostCancelBuyObservation {
    PostCancelBuyObservation {
        post_cancel_status: None,
        post_cancel_price: None,
        post_cancel_filled_size: None,
        db_fill_qty: 0,
        db_fill_notional: 0,
        visible_inventory_fill_qty: None,
        order_info_size: Some(5 * SHARE),
        order_info_price: Some(420_000),
        working_price: Some(410_000),
        current_price: 400_000,
        remaining_usdc: Some(5_000_000),
        order_remaining_size: None,
        size_usdc: 9_000_000,
    }
}

#[test]
fn post_cancel_plan_without_a_fill_does_nothing() {
    assert!(matches!(plan_post_cancel_buy_fill(&observation()), PostCancelFillPlan::NoFill));
}

#[test]
fn post_cancel_plan_full_fill_from_the_exchange() {
    let o = PostCancelBuyObservation {
        post_cancel_status: Some("filled".to_string()),
        post_cancel_price: Some(400_000),
        post_cancel_filled_size: Some(5 * SHARE),
        ..observation()
    };
    match plan_post_cancel_buy_fill(&o) {
        PostCancelFillPlan::Full { detection, fill_notional } => {
            assert_eq!((detection.qty, detection.source), (500, "order_info_filled_size"));
            assert_eq!(fill_notional, 2_000_000);
        }
        _ => panic!("expected a full fill"),
    }
}

#[test]
fn post_cancel_plan_partial_fill_leaves_the_rest_of_the_budget() {
    let o = PostCancelBuyObservation {
        post_cancel_status: Some("canceled".to_string()),
        post_cancel_price: Some(450_000),
        post_cancel_filled_size: Some(2 * SHARE),
        db_fill_notional: 900_000,
        ..observation()
    };
    match plan_post_cancel_buy_fill(&o) {
        PostCancelFillPlan::Partial { detection, fill_notional, execution_price, old_remaining_usdc, new_remaining_usdc } => {
            assert_eq!((detection.qty, detection.source), (200, "order_info_filled_size"));
            assert_eq!(fill_notional, 900_000);
            assert_eq!(execution_price, 450_000);
            assert_eq!(old_remaining_usdc, 5_000_000);
            assert_eq!(new_remaining_usdc, 4_100_000);
        }
        _ => panic!("expected a partial fill"),
    }
    let failed_read = PostCancelBuyObservation { db_fill_qty: SHARE, ..observation() };
    match plan_post_cancel_buy_fill(&failed_read) {
        PostCancelFillPlan::Partial { detection, fill_notional, execution_price, .. } => {
            assert_eq!((detection.qty, detection.source), (100, "db_aggregate"));
            assert_eq!(fill_notional, 410_000);
            assert_eq!(execution_price, 420_000);
        }
        _ => panic!("expected a partial fill"),
    }
}

fn activity(kind: &str, side: Option<&str>, asset: Option<&str>, size: i64, usdc: i64) -> DataApiActivity {
    DataApiActivity {
        activity_type: kind.to_string(),
        side: side.map(|s| s.to_string()),
        slug: "btc-updown-5m-1772296200".to_string(),
        asset: asset.map(|s| s.to_string()),
        outcome: None,
        size,
        usdc_size: usdc,
        price: None,
        timestamp: Some(1_772_296_300),
    }
}

fn advance(
    state: bot_runner::official_pnl_step::OfficialPnlState,
    event: OfficialPnlEvent,
) -> (bot_runner::official_pnl_step::OfficialPnlState, OfficialPnlAction) {
    official_pnl_rows_step(state, event, "tok-up")
}

#[test]
fn official_pnl_step_walks_the_lookups_to_building_rows() {
    let (s, a) = advance(official_pnl_initial_state(), OfficialPnlEvent::Start);
    assert!(matches!(a, OfficialPnlAction::CountTokenRoots));
    let (s, a) = advance(s, OfficialPnlEvent::TokenRootCount(Some(1)));
    assert!(matches!(a, OfficialPnlAction::CountMarketRoots));
    let (s, a) = advance(s, OfficialPnlEvent::MarketRootCount(Some(2)));
    assert!(matches!(a, OfficialPnlAction::LoadWallet));
    assert!(s.market_scope_required);
    let (s, a) = advance(s, OfficialPnlEvent::Wallet { config_loaded: true, wallet_found: true });
    assert!(matches!(a, OfficialPnlAction::ListActivity));
    let acts = vec![activity("TRADE", Some("BUY"), Some("tok-up"), 10 * SHARE, 4_000_000)];
    let (s, a) = advance(s, OfficialPnlEvent::Activity(Some(acts)));
    match a {
        OfficialPnlAction::BuildRows(ledger) => {
            assert_eq!(ledger.buy_qty, 10 * SHARE as i128);
            assert_eq!(ledger.buy_usdc, 4_000_000);
        }
        _ => panic!("expected rows to be built"),
    }
    let market = s.market_ledger.expect("market ledger");
    assert_eq!(market.buy_usdc, 4_000_000);
    let (s, a) = advance(s, OfficialPnlEvent::RowsBuilt(true));
    assert!(matches!(a, OfficialPnlAction::UseRows { market_scope_required: true, market_ledger: Some(_) }));
    assert!(s.stage == OfficialPnlStage::Done);
    let (_, a) = advance(s, OfficialPnlEvent::Start);
    assert!(matches!(a, OfficialPnlAction::Ignore));
}

#[test]
fn official_pnl_step_falls_back_for_each_reason() {
    let (s, _) = advance(official_pnl_initial_state(), OfficialPnlEvent::Start);
    let (_, a) = advance(s, OfficialPnlEvent::TokenRootCount(None));
    match a {
        OfficialPnlAction::Fallback { reason, market_scope_required, market_ledger } => {
            assert!(reason == OfficialPnlFallback::LookupFailed);
            assert_eq!(reason.flag(), "official_activity_lookup_failed");
            assert!(!market_scope_required);
            assert!(market_ledger.is_none());
        }
        _ => panic!("expected a fallback"),
    }

    let (s, _) = advance(official_pnl_initial_state(), OfficialPnlEvent::Start);
    let (s, _) = advance(s, OfficialPnlEvent::TokenRootCount(Some(1)));
    let (s, _) = advance(s, OfficialPnlEvent::MarketRootCount(Some(1)));
    let (_, a) = advance(s, OfficialPnlEvent::Wallet { config_loaded: true, wallet_found: false });
    assert!(matches!(a, OfficialPnlAction::Fallback { reason: OfficialPnlFallback::WalletMissing, .. }));

    let (s, _) = advance(official_pnl_initial_state(), OfficialPnlEvent::Start);
    let (s, _) = advance(s, OfficialPnlEvent::TokenRootCount(Some(2)));
    let (s, _) = advance(s, OfficialPnlEvent::MarketRootCount(Some(2)));
    let (s, _) = advance(s, OfficialPnlEvent::Wallet { config_loaded: true, wallet_found: true });
    let acts = vec![activity("TRADE", Some("BUY"), Some("tok-up"), 10 * SHARE, 4_000_000)];
    let (_, a) = advance(s, OfficialPnlEvent::Activity(Some(acts)));
    match a {
        OfficialPnlAction::Fallback { reason, market_scope_required, market_ledger } => {
            assert!(reason == OfficialPnlFallback::Ambiguous);
            assert_eq!(reason.flag(), "official_activity_ambiguous");
            assert!(market_scope_required);
            assert!(market_ledger.is_some());
        }
        _ => panic!("expected a fallback"),
    }

    let (s, _) = advance(official_pnl_initial_state(), OfficialPnlEvent::Start);
    let (s, _) = advance(s, OfficialPnlEvent::TokenRootCount(Some(1)));
    let (s, _) = advance(s, OfficialPnlEvent::MarketRootCount(Some(1)));
    let (s, _) = advance(s, OfficialPnlEvent::Wallet { config_loaded: true, wallet_found: true });
    let acts = vec![activity("TRADE", Some("SELL"), Some("tok-up"), 10 * SHARE, 4_000_000)];
    let (_, a) = advance(s, OfficialPnlEvent::Activity(Some(acts)));
    assert!(matches!(a, OfficialPnlAction::Fallback { reason: OfficialPnlFallback::MissingBuy, .. }));

    let (s, _) = advance(official_pnl_initial_state(), OfficialPnlEvent::Start);
    let (s, _) = advance(s, OfficialPnlEvent::TokenRootCount(Some(1)));
    let (s, _) = advance(s, OfficialPnlEvent::MarketRootCount(Some(1)));
    let (s, _) = advance(s, OfficialPnlEvent::Wallet { config_loaded: true, wallet_found: true });
    let acts = vec![activity("TRADE", Some("BUY"), Some("tok-up"), 10 * SHARE, 4_000_000)];
    let (s, _) = advance(s, OfficialPnlEvent::Activity(Some(acts)));
    let (_, a) = advance(s, OfficialPnlEvent::RowsBuilt(false));
    match a {
        OfficialPnlAction::Fallback { reason, .. } => assert_eq!(reason.flag(), "official_redeem_unmatched"),
        _ => panic!("expected a fallback"),
    }
}

fn child_order(id: i64, mode: Option<&str>) -> TradeBuilderOrder {
    TradeBuilderOrder {
        id,
        user_id: 7,
        kind: "conditional".to_string(),
        status: "armed".to_string(),
        market_slug: "btc-updown-5m-1772296200".to_string(),
        token_id: "tok-up".to_string(),
        outcome_label: "Up".to_string(),
        side: "sell".to_string(),
        execution_mode: "market".to_string(),
        trigger_condition: Some("cross_below".to_string()),
        trigger_price: Some(400_000),
        size_basis: TRADE_BUILDER_SIZE_BASIS_SHARES.to_string(),
        last_error: None,
        last_seen_price: None,
        working_price: None,
        sl_trigger_price_mode: mode.map(|m| m.to_string()),
        created_at: 100 + id,
        parent_order_id: Some(10),
        origin_flow_run_id: None,
        tp_enabled: false,
        tp_price: None,
        tp_rules_json: Vec::new(),
        sl_enabled: false,
        sl_price: None,
        sl_rules_json: Vec::new(),
        time_exit_rules_json: Vec::new(),
        retry_on_execution_floor_guard_block: false,
        ptb_stop_loss_gap_usd: None,
        ptb_stop_loss_rules_json: Vec::new(),
        exit_ladder_kind: None,
        exit_ladder_index: None,
        exit_ladder_size_pct: None,
    }
}

fn prices(bid: Option<i64>) -> TradeBuilderRuntimePrice {
    TradeBuilderRuntimePrice {
        price: 450_000,
        source: "ws".to_string(),
        runtime_warning: None,
        best_bid: bid,
        best_ask: Some(460_000),
        last_trade_price: Some(445_000),
    }
}

#[test]
fn armed_evaluation_prices_the_orders_of_dirty_tokens() {
    let mut cache = ArmedBuilderOrderCache::new();
    sync_armed_builder_order_cache_entry(&mut cache, child_order(1, None));
    sync_armed_builder_order_cache_entry(&mut cache, child_order(2, Some("best_bid")));
    let dirty = vec!["tok-up".to_string(), "tok-other".to_string()];
    let with_bid = vec![("tok-up".to_string(), prices(Some(440_000)))];
    let pricings = evaluate_armed_orders_for_tokens(&cache, &dirty, &with_bid);
    assert_eq!(pricings.len(), 2);
    assert_eq!(pricings[0].order_id, 1);
    assert!(pricings[0].evaluated);
    assert_eq!(pricings[0].trigger_eval_price, 440_000);
    assert_eq!(pricings[0].execution_price, 440_000);
    assert_eq!(pricings[0].last_seen_price, 440_000);
    assert_eq!(pricings[1].order_id, 2);
    assert!(pricings[1].evaluated);
    assert_eq!(pricings[1].trigger_eval_price, 440_000);

    let without_bid = vec![("tok-up".to_string(), prices(None))];
    let pricings = evaluate_armed_orders_for_tokens(&cache, &dirty, &without_bid);
    assert_eq!(pricings.len(), 2);
    assert!(pricings[0].evaluated);
    assert!(!pricings[1].evaluated);

    let no_prices: Vec<(String, TradeBuilderRuntimePrice)> = Vec::new();
    assert!(evaluate_armed_orders_for_tokens(&cache, &dirty, &no_prices).is_empty());
}

#[test]
fn armed_decisions_and_cycle_activity() {
    let mut cache = ArmedBuilderOrderCache::new();
    sync_armed_builder_order_cache_entry(&mut cache, child_order(1, None));
    let dirty = vec!["tok-up".to_string()];
    let p = evaluate_armed_orders_for_tokens(&cache, &dirty, &[("tok-up".to_string(), prices(Some(440_000)))]);
    let fire = decide_armed_order(&p[0], true, false, false);
    assert!(fire == ArmedOrderDecision::Trigger);
    let wait = decide_armed_order(&p[0], true, true, false);
    assert!(wait == ArmedOrderDecision::AwaitBidConfirmation { last_seen_price: 440_000, starts_waiting: true });
    let still_waiting = decide_armed_order(&p[0], true, true, true);
    assert!(still_waiting == ArmedOrderDecision::AwaitBidConfirmation { last_seen_price: 440_000, starts_waiting: false });
    let release = decide_armed_order(&p[0], false, false, true);
    assert!(release == ArmedOrderDecision::Hold { last_seen_price: 440_000, releases_wait: true });

    let waiting_order = TradeBuilderOrder {
        last_error: Some("composite_bid_confirmation_waiting".to_string()),
        ..child_order(3, None)
    };
    assert!(trade_builder_order_awaits_bid_confirmation(&waiting_order));
    assert!(!trade_builder_order_awaits_bid_confirmation(&child_order(4, None)));

    let pricings = vec![p[0], p[0], p[0], p[0], p[0]];
    let decisions = vec![fire, wait, still_waiting, release];
    let activity = armed_cycle_activity(1, 5, &pricings, &decisions);
    assert_eq!(activity.selected_token_count, 1);
    assert_eq!(activity.selected_order_count, 5);
    assert_eq!(activity.evaluated_order_count, 4);
    assert_eq!(activity.last_seen_update_count, 3);
    assert_eq!(activity.triggered_order_count, 1);
    assert_eq!(activity.composite_waiting_count, 1);
    assert_eq!(activity.composite_released_count, 1);
    assert_eq!(activity.selected_source_missing_count, 1);
}

fn root_order(side: &str, key: Option<&str>) -> SnapshotRootOrder {
    SnapshotRootOrder {
        side: side.to_string(),
        parent_order_id: None,
        origin_flow_run_id: Some(77),
        origin_flow_node_key: key.map(|k| k.to_string()),
    }
}

fn auto_scope_graph() -> TradeFlowGraphRuntime {
    let auto = JsonValue::Object(vec![("marketMode".to_string(), JsonValue::Str("auto_scope".to_string()))]);
    TradeFlowGraphRuntime {
        context: JsonValue::Object(Vec::new()),
        nodes: vec![
            TradeFlowNode { key: "trigger_auto".to_string(), node_type: "trigger.market_price".to_string(), config: auto },
            TradeFlowNode {
                key: "action_buy".to_string(),
                node_type: "action.place_order".to_string(),
                config: JsonValue::Object(Vec::new()),
            },
        ],
        edges: vec![TradeFlowEdge {
            source: "trigger_auto".to_string(),
            target: "action_buy".to_string(),
            edge_type: "default".to_string(),
            condition: None,
        }],
    }
}

fn skip_reason(a: &SnapshotAction) -> Option<&'static str> {
    match a {
        SnapshotAction::Skip(reason) => Some(*reason),
        _ => None,
    }
}

fn to_version(key: Option<&str>) -> SnapshotGateState {
    let (s, _) = plan_auto_scope_analysis_snapshot_step(snapshot_gate_initial(), SnapshotEvent::Start);
    let (s, _) = plan_auto_scope_analysis_snapshot_step(s, SnapshotEvent::RootOrder(Some(root_order("buy", key))));
    let (s, _) = plan_auto_scope_analysis_snapshot_step(s, SnapshotEvent::Run(true));
    s
}

#[test]
fn snapshot_step_builds_rows_for_a_traced_root_buy() {
    let (s, a) = plan_auto_scope_analysis_snapshot_step(snapshot_gate_initial(), SnapshotEvent::Start);
    assert!(matches!(a, SnapshotAction::FetchRootOrder));
    let (s, a) = plan_auto_scope_analysis_snapshot_step(s, SnapshotEvent::RootOrder(Some(root_order("buy", Some(" action_buy ")))));
    assert!(matches!(a, SnapshotAction::FetchRun(77)));
    assert_eq!(s.action_node_key.as_deref(), Some("action_buy"));
    let (s, a) = plan_auto_scope_analysis_snapshot_step(s, SnapshotEvent::Run(true));
    assert!(matches!(a, SnapshotAction::FetchVersion));
    let (s, a) = plan_auto_scope_analysis_snapshot_step(s, SnapshotEvent::Version(Some(auto_scope_graph())));
    assert!(matches!(a, SnapshotAction::FetchBuyMetrics));
    let (s, a) = plan_auto_scope_analysis_snapshot_step(s, SnapshotEvent::BuyMetrics { avg_price: Some(400_000), qty: 10 * SHARE });
    assert!(matches!(a, SnapshotAction::BuildRows));
    assert!(s.stage == SnapshotStage::Done);
}

#[test]
fn snapshot_step_skip_reasons() {
    let (s, _) = plan_auto_scope_analysis_snapshot_step(snapshot_gate_initial(), SnapshotEvent::Start);
    let (_, a) = plan_auto_scope_analysis_snapshot_step(s, SnapshotEvent::RootOrder(None));
    assert_eq!(skip_reason(&a), Some("root_order_not_found"));
    let (s, _) = plan_auto_scope_analysis_snapshot_step(snapshot_gate_initial(), SnapshotEvent::Start);
    let (_, a) = plan_auto_scope_analysis_snapshot_step(s, SnapshotEvent::RootOrder(Some(root_order("sell", Some("action_buy")))));
    assert_eq!(skip_reason(&a), Some("not_root_buy_order"));
    let (s, _) = plan_auto_scope_analysis_snapshot_step(snapshot_gate_initial(), SnapshotEvent::Start);
    let (s, _) = plan_auto_scope_analysis_snapshot_step(s, SnapshotEvent::RootOrder(Some(root_order("buy", Some("action_buy")))));
    let (_, a) = plan_auto_scope_analysis_snapshot_step(s, SnapshotEvent::Run(false));
    assert_eq!(skip_reason(&a), Some("missing_flow_run"));
    let (_, a) = plan_auto_scope_analysis_snapshot_step(to_version(Some("action_buy")), SnapshotEvent::Version(None));
    assert_eq!(skip_reason(&a), Some("missing_flow_version"));
    let (_, a) = plan_auto_scope_analysis_snapshot_step(to_version(Some("   ")), SnapshotEvent::Version(Some(auto_scope_graph())));
    assert_eq!(skip_reason(&a), Some("missing_action_node_key"));
    let (_, a) = plan_auto_scope_analysis_snapshot_step(to_version(Some("trigger_auto")), SnapshotEvent::Version(Some(auto_scope_graph())));
    assert_eq!(skip_reason(&a), Some("missing_auto_scope_trigger"));
    let (s, _) = plan_auto_scope_analysis_snapshot_step(to_version(Some("action_buy")), SnapshotEvent::Version(Some(auto_scope_graph())));
    let (_, a) = plan_auto_scope_analysis_snapshot_step(s, SnapshotEvent::BuyMetrics { avg_price: None, qty: SHARE });
    assert_eq!(skip_reason(&a), Some("missing_buy_fill_metrics"));
    let (s, _) = plan_auto_scope_analysis_snapshot_step(to_version(Some("action_buy")), SnapshotEvent::Version(Some(auto_scope_graph())));
    let (_, a) = plan_auto_scope_analysis_snapshot_step(s, SnapshotEvent::BuyMetrics { avg_price: Some(1), qty: 0 });
    assert_eq!(skip_reason(&a), Some("zero_buy_fill_qty"));
}

#[test]
fn sell_allocations_follow_the_buy_down_to_zero() {
    let round = auto_scope_sell_allocations(10 * SHARE, &[5 * SHARE, 7 * SHARE, 2 * SHARE]);
    assert_eq!(round.allocations.len(), 3);
    assert_eq!((round.allocations[0].allocated_qty, round.allocations[0].ignored_qty), (500, 0));
    assert_eq!(round.allocations[0].allocation_ratio, (500, 500));
    assert_eq!((round.allocations[1].allocated_qty, round.allocations[1].ignored_qty), (500, 200));
    assert_eq!(round.allocations[1].allocation_ratio, (500, 700));
    assert_eq!(round.allocations[1].remaining_qty_after_exit, 0);
    assert_eq!((round.allocations[2].allocated_qty, round.allocations[2].ignored_qty), (0, 200));
    assert_eq!(round.observed_sell_qty, 14 * SHARE as i128);
    assert_eq!(round.allocated_sold_qty, 10 * SHARE as i128);
    assert_eq!(round.ignored_sell_qty, 4 * SHARE as i128);
    assert_eq!(auto_scope_remaining_qty(10 * SHARE, round.allocated_sold_qty), 0);
    assert_eq!(auto_scope_remaining_qty(10 * SHARE, 4 * SHARE as i128), 600);
}
