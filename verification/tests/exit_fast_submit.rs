use bot_runner::exit_fast_submit::{
    clear_exit_fast_submit_quotes_for_test, exit_fast_submit_quote_age_ms, exit_fast_submit_quote_is_fresh,
    get_exit_fast_submit_quote, get_exit_fast_submit_quote_for_order, put_exit_fast_submit_quote,
    put_exit_fast_submit_quote_at, put_exit_fast_submit_quote_for_test, ExitFastSubmitQuote, ExitFastSubmitQuoteCache,
    OrderBookLevel, OrderBookSnapshot, EXIT_FAST_SUBMIT_QUOTE_TTL_MS,
};
use bot_runner::order::{TradeBuilderOrder, TRADE_BUILDER_SIZE_BASIS_SHARES};

const MS: i64 = 1_000;
const NOW: i64 = 1_772_296_260_000_000;

fn test_order_book() -> OrderBookSnapshot {
    OrderBookSnapshot {
        bids: vec![OrderBookLevel { price: 430_000, size: 10_000_000 }],
        asks: vec![OrderBookLevel { price: 450_000, size: 8_000_000 }],
    }
}

fn test_quote(captured_at: i64) -> ExitFastSubmitQuote {
    ExitFastSubmitQuote {
        token_id: "tok-up".to_string(),
        captured_at,
        market_updated_at_ms: 123,
        order_book: test_order_book(),
        best_bid: Some(430_000),
        best_ask: Some(450_000),
        last_trade_price: Some(460_000),
    }
}

fn exit_child(id: i64) -> TradeBuilderOrder {
    TradeBuilderOrder {
        id,
        user_id: 7,
        kind: "conditional".to_string(),
        status: "armed".to_string(),
        market_slug: "btc-updown-5m-1772296200".to_string(),
        token_id: "tok-up".to_string(),
        outcome_label: "Up".to_string(),
        side: "sell".to_string(),
        execution_mode: "market".to_string(),
        trigger_condition: Some("cross_above".to_string()),
        trigger_price: Some(600_000),
        size_basis: TRADE_BUILDER_SIZE_BASIS_SHARES.to_string(),
        last_error: None,
        last_seen_price: None,
        working_price: None,
        sl_trigger_price_mode: None,
        created_at: 100,
        parent_order_id: Some(1),
        origin_flow_run_id: None,
        tp_enabled: false,
        tp_price: None,
        tp_rules_json: Vec::new(),
        sl_enabled: false,
        sl_price: None,
        sl_rules_json: Vec::new(),
        time_exit_rules_json: Vec::new(),
        retry_on_execution_floor_guard_block: false,
        ptb_stop_loss_gap_usd: None,
        ptb_stop_loss_rules_json: Vec::new(),
        exit_ladder_kind: None,
        exit_ladder_index: None,
        exit_ladder_size_pct: None,
    }
}

#[test]
fn exit_fast_submit_quote_expires_after_ttl() {
    let mut cache = ExitFastSubmitQuoteCache::new();
    clear_exit_fast_submit_quotes_for_test(&mut cache);
    put_exit_fast_submit_quote_for_test(&mut cache, 42, test_quote(NOW - (EXIT_FAST_SUBMIT_QUOTE_TTL_MS + 1) * MS));
    assert!(get_exit_fast_submit_quote(&mut cache, 42, "tok-up", NOW).is_none());
    assert_eq!(cache.len(), 0);
}

#[test]
fn fresh_quote_is_read_back() {
    let mut cache = ExitFastSubmitQuoteCache::new();
    put_exit_fast_submit_quote_for_test(&mut cache, 42, test_quote(NOW - EXIT_FAST_SUBMIT_QUOTE_TTL_MS * MS));
    let got = get_exit_fast_submit_quote(&mut cache, 42, "tok-up", NOW).expect("fresh quote");
    assert_eq!(got.best_bid, Some(430_000));
    assert_eq!(got.order_book.asks.len(), 1);
    assert_eq!(cache.len(), 1);
    assert!(get_exit_fast_submit_quote(&mut cache, 42, "tok-down", NOW).is_none());
    assert_eq!(cache.len(), 0);
    assert!(get_exit_fast_submit_quote(&mut cache, 7, "tok-up", NOW).is_none());
    put_exit_fast_submit_quote_for_test(&mut cache, -3, test_quote(NOW));
    assert!(get_exit_fast_submit_quote(&mut cache, 1, "tok-up", NOW).is_some());
}

#[test]
fn quote_age_and_freshness() {
    let q = test_quote(NOW);
    assert_eq!(exit_fast_submit_quote_age_ms(&q, NOW + 1_999), 1);
    assert_eq!(exit_fast_submit_quote_age_ms(&q, NOW - 5_000), 0);
    assert!(exit_fast_submit_quote_is_fresh(&q, "tok-up", NOW + 500_999));
    assert!(!exit_fast_submit_quote_is_fresh(&q, "tok-up", NOW + 501_000));
    assert!(!exit_fast_submit_quote_is_fresh(&q, "tok-down", NOW));
}

#[test]
fn put_skips_bad_keys_and_replaces_quotes() {
    let mut cache = ExitFastSubmitQuoteCache::new();
    let book = test_order_book();
    put_exit_fast_submit_quote_at(&mut cache, 0, "tok-up", 1, &book, None, None, None, NOW, NOW);
    put_exit_fast_submit_quote_at(&mut cache, 5, "   ", 1, &book, None, None, None, NOW, NOW);
    assert_eq!(cache.len(), 0);
    put_exit_fast_submit_quote_at(&mut cache, 5, "tok-up", 1, &book, Some(1), None, None, NOW, NOW);
    put_exit_fast_submit_quote_at(&mut cache, 5, "tok-up", 2, &book, Some(2), None, None, NOW, NOW);
    assert_eq!(cache.len(), 1);
    let got = get_exit_fast_submit_quote(&mut cache, 5, "tok-up", NOW).expect("quote");
    assert_eq!(got.best_bid, Some(2));
    assert_eq!(got.market_updated_at_ms, 2);
    put_exit_fast_submit_quote(&mut cache, 6, "tok-up", 3, &book, Some(3), None, None);
    assert_eq!(cache.len(), 2);
}

#[test]
fn a_full_cache_drops_stale_quotes_on_put() {
    let mut cache = ExitFastSubmitQuoteCache::new();
    let book = test_order_book();
    for id in 1..=512 {
        put_exit_fast_submit_quote_at(&mut cache, id, "tok-up", 0, &book, None, None, None, NOW - 10_000 * MS, NOW);
    }
    assert_eq!(cache.len(), 512);
    put_exit_fast_submit_quote_at(&mut cache, 1_000, "tok-up", 0, &book, None, None, None, NOW, NOW);
    assert_eq!(cache.len(), 1);
    assert!(get_exit_fast_submit_quote(&mut cache, 1_000, "tok-up", NOW).is_some());
}

#[test]
fn only_child_exit_sells_use_quotes() {
    let mut cache = ExitFastSubmitQuoteCache::new();
    put_exit_fast_submit_quote_for_test(&mut cache, 42, test_quote(NOW));
    assert!(get_exit_fast_submit_quote_for_order(&mut cache, &exit_child(42), NOW).is_some());
    let root = TradeBuilderOrder { parent_order_id: None, ..exit_child(42) };
    assert!(get_exit_fast_submit_quote_for_order(&mut cache, &root, NOW).is_none());
    assert_eq!(cache.len(), 1);
}
