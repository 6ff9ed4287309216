use bot_runner::order::{TradeBuilderOrder, TRADE_BUILDER_SIZE_BASIS_SHARES};
use bot_runner::runtime_price::{
    fast_execution_price_for_buy, fast_execution_price_for_sell, fast_trigger_eval_price,
    sl_trigger_eval_price_for_mode, trade_builder_execution_price_for_order,
    trade_builder_last_seen_price_for_order, trade_builder_trigger_eval_price_for_order, TradeBuilderRuntimePrice,
};

fn stop_loss_child() -> TradeBuilderOrder {
    TradeBuilderOrder {
        id: 11,
        user_id: 7,
        kind: "conditional".to_string(),
        status: "armed".to_string(),
        market_slug: "btc-updown-5m-1772296200".to_string(),
        token_id: "tok-up".to_string(),
        outcome_label: "Up".to_string(),
        side: "sell".to_string(),
        execution_mode: "market".to_string(),
        trigger_condition: Some("cross_below".to_string()),
        trigger_price: Some(400_000),
        size_basis: TRADE_BUILDER_SIZE_BASIS_SHARES.to_string(),
        last_error: None,
        last_seen_price: None,
        working_price: None,
        sl_trigger_price_mode: None,
        created_at: 100,
        parent_order_id: Some(10),
        origin_flow_run_id: None,
        tp_enabled: false,
        tp_price: None,
        tp_rules_json: Vec::new(),
        sl_enabled: false,
        sl_price: None,
        sl_rules_json: Vec::new(),
        time_exit_rules_json: Vec::new(),
        retry_on_execution_floor_guard_block: false,
        ptb_stop_loss_gap_usd: None,
        ptb_stop_loss_rules_json: Vec::new(),
        exit_ladder_kind: None,
        exit_ladder_index: None,
        exit_ladder_size_pct: None,
    }
}

fn book(price: i64, bid: Option<i64>, ask: Option<i64>, last: Option<i64>) -> TradeBuilderRuntimePrice {
    TradeBuilderRuntimePrice {
        price,
        source: "book".to_string(),
        runtime_warning: None,
        best_bid: bid,
        best_ask: ask,
        last_trade_price: last,
    }
}

#[test]
fn exit_sell_last_seen_is_the_bid() {
    let order = TradeBuilderOrder { trigger_condition: Some("cross_above".to_string()), ..stop_loss_child() };
    let rp = book(770_000, Some(760_000), Some(790_000), Some(770_000));
    let trigger = trade_builder_trigger_eval_price_for_order(&order, &rp);
    let execution = trade_builder_execution_price_for_order(&order, &rp);
    assert_eq!(trigger, 770_000);
    assert_eq!(execution, 760_000);
    assert_eq!(trade_builder_last_seen_price_for_order(&order, trigger, execution), 760_000);
}

#[test]
fn fast_trigger_prices_by_condition() {
    let rp = book(500_000, Some(600_000), None, Some(650_000));
    assert_eq!(fast_trigger_eval_price(&rp, Some("cross_above")), 650_000);
    assert_eq!(fast_trigger_eval_price(&rp, Some("cross_below")), 600_000);
    assert_eq!(fast_trigger_eval_price(&rp, None), 500_000);
    let diverging = book(500_000, Some(600_000), None, Some(400_000));
    assert_eq!(fast_trigger_eval_price(&diverging, Some("cross_below")), 600_000);
    let close = book(500_000, Some(600_000), None, Some(450_000));
    assert_eq!(fast_trigger_eval_price(&close, Some("cross_below")), 450_000);
    let bid_only = book(500_000, Some(1_200_000), None, None);
    assert_eq!(fast_trigger_eval_price(&bid_only, Some("cross_above")), 1_000_000);
    let empty = book(500_000, None, None, None);
    assert_eq!(fast_trigger_eval_price(&empty, Some("cross_above")), 500_000);
}

#[test]
fn stop_loss_price_modes() {
    let rp = book(500_000, Some(600_000), None, Some(550_000));
    assert_eq!(sl_trigger_eval_price_for_mode("best_bid", &rp), Some(600_000));
    assert_eq!(sl_trigger_eval_price_for_mode("last_trade", &rp), Some(550_000));
    assert_eq!(sl_trigger_eval_price_for_mode("composite_fast", &rp), Some(550_000));
    assert_eq!(sl_trigger_eval_price_for_mode("other", &rp), Some(550_000));
    let no_bid = book(500_000, None, None, Some(550_000));
    assert_eq!(sl_trigger_eval_price_for_mode("best_bid", &no_bid), None);
    let order = TradeBuilderOrder { sl_trigger_price_mode: Some("best_bid".to_string()), ..stop_loss_child() };
    assert_eq!(trade_builder_trigger_eval_price_for_order(&order, &no_bid), 500_000);
    assert_eq!(trade_builder_trigger_eval_price_for_order(&order, &rp), 600_000);
}

#[test]
fn execution_prices_by_side() {
    let rp = book(500_000, Some(600_000), Some(620_000), Some(610_000));
    assert_eq!(fast_execution_price_for_sell(&rp), 600_000);
    assert_eq!(fast_execution_price_for_buy(&rp), 620_000);
    let no_ask = book(500_000, Some(600_000), None, None);
    assert_eq!(fast_execution_price_for_buy(&no_ask), 600_000);
    let empty = book(500_000, None, None, None);
    assert_eq!(fast_execution_price_for_sell(&empty), 500_000);
    let root_buy = TradeBuilderOrder { parent_order_id: None, side: "buy".to_string(), ..stop_loss_child() };
    assert_eq!(trade_builder_execution_price_for_order(&root_buy, &rp), 620_000);
    assert_eq!(trade_builder_last_seen_price_for_order(&root_buy, 1, 2), 1);
    let market_order = TradeBuilderOrder { kind: "market".to_string(), ..stop_loss_child() };
    assert_eq!(trade_builder_execution_price_for_order(&market_order, &rp), 500_000);
    assert_eq!(trade_builder_trigger_eval_price_for_order(&market_order, &rp), 500_000);
    assert_eq!(trade_builder_last_seen_price_for_order(&market_order, 1, 2), 2);
}
