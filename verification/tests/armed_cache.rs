use bot_runner::armed_cache::{
    armed_builder_ws_eval_should_log, collect_armed_builder_ptb_orders_for_dirty_context,
    evaluate_armed_builder_ptb_dirty_orders, push_order_into_armed_builder_bucket,
    remove_order_from_armed_builder_bucket, remove_order_from_armed_builder_cache,
    sync_armed_builder_order_cache_entry, trade_builder_is_ws_fast_path_price_child,
    trade_builder_is_ws_fast_path_ptb_child, trade_builder_is_ws_fast_path_tp_sl_child,
    trade_builder_ptb_asset_cache_key, trade_builder_ptb_market_slug_cache_key, ArmedBuilderOrderBuckets,
    ArmedBuilderOrderCache, ArmedBuilderWsEvalActivity, ArmedBuilderWsPassiveLog,
};
use bot_runner::market_scope::trade_builder_asset_from_market_slug;
use bot_runner::order::{TradeBuilderOrder, TRADE_BUILDER_SIZE_BASIS_SHARES};

fn tp_sl_child_order() -> TradeBuilderOrder {
    TradeBuilderOrder {
        id: 11,
        user_id: 7,
        kind: "conditional".to_string(),
        status: "armed".to_string(),
        market_slug: "btc-updown-5m-1772296200".to_string(),
        token_id: "tok-up".to_string(),
        outcome_label: "Up".to_string(),
        side: "sell".to_string(),
        execution_mode: "market".to_string(),
        trigger_condition: Some("cross_below".to_string()),
        trigger_price: Some(400_000),
        size_basis: TRADE_BUILDER_SIZE_BASIS_SHARES.to_string(),
        last_error: None,
        last_seen_price: None,
        working_price: None,
        sl_trigger_price_mode: None,
        created_at: 100,
        parent_order_id: Some(10),
        origin_flow_run_id: None,
        tp_enabled: false,
        tp_price: None,
        tp_rules_json: Vec::new(),
        sl_enabled: false,
        sl_price: None,
        sl_rules_json: Vec::new(),
        time_exit_rules_json: Vec::new(),
        retry_on_execution_floor_guard_block: false,
        ptb_stop_loss_gap_usd: None,
        ptb_stop_loss_rules_json: Vec::new(),
        exit_ladder_kind: None,
        exit_ladder_index: None,
        exit_ladder_size_pct: None,
    }
}

fn ptb_child_order() -> TradeBuilderOrder {
    TradeBuilderOrder {
        id: 21,
        trigger_condition: None,
        trigger_price: None,
        ptb_stop_loss_gap_usd: Some(25_000_000),
        market_slug: " BTC-updown-5m-1772296200 ".to_string(),
        ..tp_sl_child_order()
    }
}

fn ids(buckets: &ArmedBuilderOrderBuckets, key: &str) -> Vec<i64> {
    match buckets.key_position(key) {
        Some(i) => buckets.buckets[i].orders.iter().map(|o| o.id).collect(),
        None => Vec::new(),
    }
}

#[test]
fn classifies_fast_path_children() {
    let tp_sl = tp_sl_child_order();
    assert!(trade_builder_is_ws_fast_path_price_child(&tp_sl));
    assert!(trade_builder_is_ws_fast_path_tp_sl_child(&tp_sl));
    assert!(!trade_builder_is_ws_fast_path_ptb_child(&tp_sl));
    let ptb = ptb_child_order();
    assert!(!trade_builder_is_ws_fast_path_price_child(&ptb));
    assert!(trade_builder_is_ws_fast_path_ptb_child(&ptb));
    let done = TradeBuilderOrder { status: "filled".to_string(), ..tp_sl_child_order() };
    assert!(!trade_builder_is_ws_fast_path_price_child(&done));
}

#[test]
fn cache_keys_of_a_ptb_order() {
    let ptb = ptb_child_order();
    assert_eq!(trade_builder_ptb_asset_cache_key(&ptb), Some("btc".to_string()));
    assert_eq!(trade_builder_ptb_market_slug_cache_key(&ptb), "btc-updown-5m-1772296200");
    assert_eq!(trade_builder_asset_from_market_slug("eth-updown-15m-1"), Some("ETH".to_string()));
    assert_eq!(trade_builder_asset_from_market_slug("will-it-rain"), None);
}

#[test]
fn sync_cache_upserts_existing_order() {
    let mut cache = ArmedBuilderOrderCache::new();
    sync_armed_builder_order_cache_entry(&mut cache, tp_sl_child_order());
    let updated = TradeBuilderOrder { last_seen_price: Some(770_000), ..tp_sl_child_order() };
    sync_armed_builder_order_cache_entry(&mut cache, updated);
    let i = cache.price_by_token.key_position("tok-up").expect("bucket");
    let bucket = &cache.price_by_token.buckets[i].orders;
    assert_eq!(bucket.len(), 1);
    assert_eq!(bucket[0].last_seen_price, Some(770_000));
}

#[test]
fn sync_cache_routes_ptb_child_into_ptb_indexes_only() {
    let mut cache = ArmedBuilderOrderCache::new();
    let order = ptb_child_order();
    sync_armed_builder_order_cache_entry(&mut cache, order);
    assert!(cache.price_by_token.key_position("tok-up").is_none());
    assert_eq!(ids(&cache.ptb_by_asset, "btc"), vec![21]);
    assert_eq!(ids(&cache.ptb_by_market_slug, "btc-updown-5m-1772296200"), vec![21]);
}

#[test]
fn sync_of_a_finished_order_removes_it() {
    let mut cache = ArmedBuilderOrderCache::new();
    sync_armed_builder_order_cache_entry(&mut cache, tp_sl_child_order());
    sync_armed_builder_order_cache_entry(&mut cache, TradeBuilderOrder { status: "filled".to_string(), ..tp_sl_child_order() });
    assert!(cache.price_by_token.buckets.is_empty());
    assert!(cache.token_ids().is_empty());
}

#[test]
fn buckets_keep_creation_order_and_drop_when_empty() {
    let mut buckets = ArmedBuilderOrderBuckets::new();
    let a = TradeBuilderOrder { id: 1, created_at: 30, ..tp_sl_child_order() };
    let b = TradeBuilderOrder { id: 2, created_at: 10, ..tp_sl_child_order() };
    let c = TradeBuilderOrder { id: 3, created_at: 30, ..tp_sl_child_order() };
    push_order_into_armed_builder_bucket(&mut buckets, "k".to_string(), &a);
    push_order_into_armed_builder_bucket(&mut buckets, "k".to_string(), &b);
    push_order_into_armed_builder_bucket(&mut buckets, "k".to_string(), &c);
    push_order_into_armed_builder_bucket(&mut buckets, "j".to_string(), &a);
    assert_eq!(ids(&buckets, "k"), vec![2, 1, 3]);
    assert_eq!(buckets.keys(), vec!["k".to_string(), "j".to_string()]);
    remove_order_from_armed_builder_bucket(&mut buckets, 1);
    assert_eq!(ids(&buckets, "k"), vec![2, 3]);
    assert!(buckets.key_position("j").is_none());
}

#[test]
fn removal_clears_every_index() {
    let mut cache = ArmedBuilderOrderCache::new();
    sync_armed_builder_order_cache_entry(&mut cache, ptb_child_order());
    sync_armed_builder_order_cache_entry(&mut cache, tp_sl_child_order());
    remove_order_from_armed_builder_cache(&mut cache, 21);
    assert!(cache.ptb_by_asset.buckets.is_empty());
    assert!(cache.ptb_by_market_slug.buckets.is_empty());
    assert_eq!(ids(&cache.price_by_token, "tok-up"), vec![11]);
}

#[test]
fn collect_ptb_orders_filters_by_dirty_asset() {
    let mut cache = ArmedBuilderOrderCache::new();
    let btc_order = ptb_child_order();
    let eth_order = TradeBuilderOrder { id: 22, market_slug: "eth-updown-5m-1772296200".to_string(), ..ptb_child_order() };
    sync_armed_builder_order_cache_entry(&mut cache, btc_order);
    sync_armed_builder_order_cache_entry(&mut cache, eth_order);
    let selected = collect_armed_builder_ptb_orders_for_dirty_context(&cache, &[" BTC ".to_string()], &[]);
    assert_eq!(selected.len(), 1);
    assert_eq!(selected[0].id, 21);
    let both = collect_armed_builder_ptb_orders_for_dirty_context(
        &cache,
        &["btc".to_string()],
        &["btc-updown-5m-1772296200".to_string(), "eth-updown-5m-1772296200".to_string()],
    );
    let mut got: Vec<i64> = both.iter().map(|o| o.id).collect();
    got.sort();
    assert_eq!(got, vec![21, 22]);
}

#[test]
fn dirty_evaluation_reports_triggered_ids_once() {
    let a = ptb_child_order();
    let b = TradeBuilderOrder { id: 22, ..ptb_child_order() };
    let c = ptb_child_order();
    let triggered = evaluate_armed_builder_ptb_dirty_orders(&[a, b, c], &[true, false, true]);
    assert_eq!(triggered, vec![21]);
}

#[test]
fn ws_eval_logs_activity_or_due_passive_samples() {
    let quiet = ArmedBuilderWsEvalActivity {
        selected_token_count: 1,
        selected_order_count: 1,
        evaluated_order_count: 1,
        last_seen_update_count: 1,
        triggered_order_count: 0,
        composite_waiting_count: 0,
        composite_released_count: 0,
        selected_source_missing_count: 0,
    };
    assert!(!armed_builder_ws_eval_should_log(quiet, false));
    assert!(armed_builder_ws_eval_should_log(quiet, true));
    let fired = ArmedBuilderWsEvalActivity { triggered_order_count: 1, ..quiet };
    assert!(armed_builder_ws_eval_should_log(fired, false));
    let mut log = ArmedBuilderWsPassiveLog::new();
    assert!(log.armed_builder_ws_eval_passive_sample_due(10_000));
    log.mark_armed_builder_ws_eval_logged_at(50_000);
    assert!(!log.armed_builder_ws_eval_passive_sample_due(59_999));
    assert!(log.armed_builder_ws_eval_passive_sample_due(60_000));
    assert!(log.armed_builder_ws_eval_passive_sample_due(i64::MAX));
}
