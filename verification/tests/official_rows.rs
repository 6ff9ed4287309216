use bot_runner::analysis::TradeFlowAutoScopeAnalysisRowInput;
use bot_runner::official_pnl::AutoScopeOfficialLedger;
use bot_runner::official_rows::{
    trade_builder_analysis_build_official_rows_from_ledger_at, AutoScopeOfficialPnlTiming, TradeFlowRun,
};
use bot_runner::order::{TradeBuilderOrder, TRADE_BUILDER_SIZE_BASIS_SHARES};

const SECOND: i64 = 1_000_000;
const OPEN: i64 = 1_772_296_200;

fn at(offset_secs: i64) -> i64 {
    (OPEN + offset_secs) * SECOND
}

fn root_order(outcome_label: &str, working_price: Option<i64>) -> TradeBuilderOrder {
    TradeBuilderOrder {
        id: 1,
        user_id: 7,
        kind: "conditional".to_string(),
        status: "filled".to_string(),
        market_slug: "btc-updown-5m-1772296200".to_string(),
        token_id: "tok-up".to_string(),
        outcome_label: outcome_label.to_string(),
        side: "buy".to_string(),
        execution_mode: "market".to_string(),
        trigger_condition: Some("cross_above".to_string()),
        trigger_price: Some(500_000),
        size_basis: TRADE_BUILDER_SIZE_BASIS_SHARES.to_string(),
        last_error: None,
        last_seen_price: None,
        working_price,
        sl_trigger_price_mode: None,
        created_at: at(0),
        parent_order_id: None,
        origin_flow_run_id: Some(3),
        tp_enabled: false,
        tp_price: None,
        tp_rules_json: Vec::new(),
        sl_enabled: false,
        sl_price: None,
        sl_rules_json: Vec::new(),
        time_exit_rules_json: Vec::new(),
        retry_on_execution_floor_guard_block: false,
        ptb_stop_loss_gap_usd: None,
        ptb_stop_loss_rules_json: Vec::new(),
        exit_ladder_kind: None,
        exit_ladder_index: None,
        exit_ladder_size_pct: None,
    }
}

fn row(row_type: &str, exit_reason: &str) -> TradeFlowAutoScopeAnalysisRowInput {
    TradeFlowAutoScopeAnalysisRowInput {
        row_key: "1".to_string(),
        user_id: 7,
        definition_id: 11,
        run_id: 3,
        root_builder_order_id: 1,
        exit_builder_order_id: None,
        row_type: row_type.to_string(),
        market_slug: "btc-updown-5m-1772296200".to_string(),
        token_id: "tok-up".to_string(),
        outcome_label: "Up".to_string(),
        exit_reason: exit_reason.to_string(),
        market_open_at: Some(at(0)),
        triggered_at: None,
        buy_filled_at: None,
        sell_filled_at: None,
        open_to_trigger_ms: None,
        trigger_to_buy_fill_ms: None,
        buy_avg_price: None,
        mark_or_sell_price: None,
        mark_price_captured_at: None,
        row_qty: 0,
        remaining_qty_after_exit: 0,
        row_pnl_usdc: 0,
        buy_notional_usdc: None,
        buy_fee_usdc: None,
        cost_basis_usdc: None,
        sell_notional_usdc: None,
        sell_fee_usdc: None,
        mark_value_usdc: None,
        net_value_usdc: None,
        pnl_pct: None,
        valuation_kind: "realized".to_string(),
    }
}

fn ledger(redeem_usdc: i128) -> AutoScopeOfficialLedger {
    AutoScopeOfficialLedger {
        buy_qty: 10_000_000,
        buy_usdc: 5_000_000,
        sell_qty: 4_000_000,
        sell_usdc: 2_400_000,
        redeem_usdc,
        first_buy_at: Some(at(60)),
        last_sell_at: Some(at(120)),
        last_redeem_at: None,
        sell_price: Some(600_000),
    }
}

fn timing() -> AutoScopeOfficialPnlTiming {
    AutoScopeOfficialPnlTiming {
        market_open_at: Some(at(0)),
        triggered_at: Some(at(50)),
        buy_filled_at: Some(at(61)),
        open_to_trigger_ms: Some(50_000),
        trigger_to_buy_fill_ms: Some(11_000),
    }
}

fn run() -> TradeFlowRun {
    TradeFlowRun { id: 3, user_id: 7, definition_id: 11 }
}

fn local_rows() -> Vec<TradeFlowAutoScopeAnalysisRowInput> {
    let mut sold = row("sell_exit", "tp");
    sold.exit_builder_order_id = Some(42);
    let mut open = row("open_position", "");
    open.mark_or_sell_price = Some(600_000);
    open.mark_price_captured_at = Some(at(200));
    vec![sold, open]
}

#[test]
fn official_rows_split_sold_and_open_shares() {
    let out = trade_builder_analysis_build_official_rows_from_ledger_at(
        &root_order("Up", None), &run(), &local_rows(), &timing(), &ledger(0), 900_000, false,
    )
    .expect("rows");
    assert_eq!(out.rows.len(), 2);
    let sell = &out.rows[0];
    assert_eq!(sell.row_key, "official_sell:1");
    assert_eq!(sell.row_type, "sell_exit");
    assert_eq!(sell.exit_reason, "tp");
    assert_eq!(sell.exit_builder_order_id, Some(42));
    assert_eq!(sell.row_qty, 4_000_000);
    assert_eq!(sell.remaining_qty_after_exit, 6_000_000);
    assert_eq!(sell.buy_avg_price, Some(500_000));
    assert_eq!(sell.cost_basis_usdc, Some(2_000_000));
    assert_eq!(sell.row_pnl_usdc, 400_000);
    assert_eq!(sell.pnl_pct, Some(20_000_000));
    assert_eq!(sell.buy_filled_at, Some(at(60)));
    let open = &out.rows[1];
    assert_eq!(open.row_key, "open:1");
    assert_eq!(open.valuation_kind, "mark_to_market");
    assert_eq!(open.mark_value_usdc, Some(3_600_000));
    assert_eq!(open.cost_basis_usdc, Some(3_000_000));
    assert_eq!(open.row_pnl_usdc, 600_000);
    assert_eq!(open.pnl_pct, Some(20_000_000));
    assert_eq!(open.mark_price_captured_at, Some(at(200)));
    assert_eq!(out.reconciliation.official_pnl_source, "data_api_activity");
    assert_eq!(out.reconciliation.official_pnl_usdc, Some(1_000_000));
    assert_eq!(out.reconciliation.official_delta_usdc, Some(100_000));
    assert_eq!(out.sell_allocation_summary.allocated_sold_qty, 4_000_000);
    assert_eq!(out.sell_allocation_summary.ignored_sell_qty, 0);
}

#[test]
fn official_rows_settle_what_is_left() {
    let ended = trade_builder_analysis_build_official_rows_from_ledger_at(
        &root_order("Up", None), &run(), &local_rows(), &timing(), &ledger(0), 0, true,
    )
    .expect("rows");
    let settled = &ended.rows[1];
    assert_eq!(settled.row_key, "settled:1");
    assert_eq!(settled.row_type, "settled_payout");
    assert_eq!(settled.row_pnl_usdc, -3_000_000);
    assert_eq!(settled.pnl_pct, Some(-100_000_000));
    let redeemed = trade_builder_analysis_build_official_rows_from_ledger_at(
        &root_order("Up", None), &run(), &local_rows(), &timing(), &ledger(6_000_000), 0, false,
    )
    .expect("rows");
    assert_eq!(redeemed.rows[1].row_pnl_usdc, 3_000_000);
    assert_eq!(redeemed.reconciliation.official_pnl_usdc, Some(3_400_000));
}

#[test]
fn official_rows_refuse_a_redemption_beyond_what_is_left() {
    assert!(trade_builder_analysis_build_official_rows_from_ledger_at(
        &root_order("Up", None), &run(), &local_rows(), &timing(), &ledger(6_500_000), 0, false,
    )
    .is_none());
}
