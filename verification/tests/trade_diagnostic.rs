use std::collections::HashMap;

use bot_runner::analysis::{TradeBuilderOrderEventRecord, TradeFlowAutoScopeAnalysisRowInput};
use bot_runner::diagnosis::AutoScopeDiagnosticEvidence;
use bot_runner::json::JsonValue;
use bot_runner::market_snapshots::TradeBuilderMarketSecondSnapshot;
use bot_runner::order::{TradeBuilderOrder, TRADE_BUILDER_SIZE_BASIS_SHARES};
use bot_runner::trade_diagnostic::{
    row_totals, trade_builder_analysis_build_trade_diagnostic, trade_builder_analysis_clamp_score,
    trade_builder_analysis_fallback_order_metrics, trade_builder_analysis_sell_summary_from_rows,
    trade_builder_analysis_quality_scores, AutoScopeAnalysisOrderMetrics, AutoScopeAnalysisSellAllocationSummary,
};

const SECOND: i64 = 1_000_000;
const OPEN: i64 = 1_772_296_200;

fn at(offset_secs: i64) -> i64 {
    (OPEN + offset_secs) * SECOND
}

fn root_order(outcome_label: &str, working_price: Option<i64>) -> TradeBuilderOrder {
    TradeBuilderOrder {
        id: 1,
        user_id: 7,
        kind: "conditional".to_string(),
        status: "filled".to_string(),
        market_slug: "btc-updown-5m-1772296200".to_string(),
        token_id: "tok-up".to_string(),
        outcome_label: outcome_label.to_string(),
        side: "buy".to_string(),
        execution_mode: "market".to_string(),
        trigger_condition: Some("cross_above".to_string()),
        trigger_price: Some(500_000),
        size_basis: TRADE_BUILDER_SIZE_BASIS_SHARES.to_string(),
        last_error: None,
        last_seen_price: None,
        working_price,
        sl_trigger_price_mode: None,
        created_at: at(0),
        parent_order_id: None,
        origin_flow_run_id: Some(3),
        tp_enabled: false,
        tp_price: None,
        tp_rules_json: Vec::new(),
        sl_enabled: false,
        sl_price: None,
        sl_rules_json: Vec::new(),
        time_exit_rules_json: Vec::new(),
        retry_on_execution_floor_guard_block: false,
        ptb_stop_loss_gap_usd: None,
        ptb_stop_loss_rules_json: Vec::new(),
        exit_ladder_kind: None,
        exit_ladder_index: None,
        exit_ladder_size_pct: None,
    }
}

fn row(row_type: &str, exit_reason: &str) -> TradeFlowAutoScopeAnalysisRowInput {
    TradeFlowAutoScopeAnalysisRowInput {
        row_key: "1".to_string(),
        user_id: 7,
        definition_id: 11,
        run_id: 3,
        root_builder_order_id: 1,
        exit_builder_order_id: None,
        row_type: row_type.to_string(),
        market_slug: "btc-updown-5m-1772296200".to_string(),
        token_id: "tok-up".to_string(),
        outcome_label: "Up".to_string(),
        exit_reason: exit_reason.to_string(),
        market_open_at: Some(at(0)),
        triggered_at: None,
        buy_filled_at: None,
        sell_filled_at: None,
        open_to_trigger_ms: None,
        trigger_to_buy_fill_ms: None,
        buy_avg_price: None,
        mark_or_sell_price: None,
        mark_price_captured_at: None,
        row_qty: 0,
        remaining_qty_after_exit: 0,
        row_pnl_usdc: 0,
        buy_notional_usdc: None,
        buy_fee_usdc: None,
        cost_basis_usdc: None,
        sell_notional_usdc: None,
        sell_fee_usdc: None,
        mark_value_usdc: None,
        net_value_usdc: None,
        pnl_pct: None,
        valuation_kind: "realized".to_string(),
    }
}

fn object(members: Vec<(&str, JsonValue)>) -> JsonValue {
    JsonValue::Object(members.into_iter().map(|(k, v)| (k.to_string(), v)).collect())
}

fn float(text: &str) -> JsonValue {
    JsonValue::Float(text.to_string())
}

fn event(id: i64, event_type: &str, payload: JsonValue, created_at: i64) -> TradeBuilderOrderEventRecord {
    TradeBuilderOrderEventRecord { id, order_id: 1, event_type: event_type.to_string(), payload_json: payload, created_at }
}

fn up_snapshot(second_ts: i64, bid: i64) -> TradeBuilderMarketSecondSnapshot {
    TradeBuilderMarketSecondSnapshot {
        market_slug: "btc-updown-5m-1772296200".to_string(),
        asset: "btc".to_string(),
        window_start: at(0),
        window_end: at(300),
        second_ts,
        ptb_ref_price: None,
        chainlink_price: None,
        yes_best_bid: Some(bid),
        yes_best_ask: None,
        yes_ask_depth_usdc: None,
        no_best_bid: None,
        no_best_ask: None,
        no_ask_depth_usdc: None,
        sample_count: 1,
    }
}

fn member<'a>(v: &'a JsonValue, key: &str) -> Option<&'a JsonValue> {
    match v {
        JsonValue::Object(members) => members.iter().find(|(k, _)| k == key).map(|(_, v)| v),
        _ => None,
    }
}

fn evidence() -> AutoScopeDiagnosticEvidence {
    AutoScopeDiagnosticEvidence {
        total_pnl_usdc: 850_000,
        fee_drag_usdc: 50_000,
        cost_basis_usdc: 5_200_000,
        entry_slippage_usdc: Some(100_000),
        exit_reason: Some("tp".to_string()),
        gave_back_usdc: Some(500_000),
        max_adverse_usdc: Some(-400_000),
        open_to_trigger_ms: None,
        trigger_to_buy_fill_ms: None,
        submit_to_fill_ms: Some(2_000),
        thin_liquidity_signal: false,
        is_open_position: false,
    }
}

#[test]
fn clamp_score_bounds_and_rounds_to_hundredths() {
    assert_eq!(trade_builder_analysis_clamp_score(-5_000_000), 0);
    assert_eq!(trade_builder_analysis_clamp_score(120_000_000), 100_000_000);
    assert_eq!(trade_builder_analysis_clamp_score(86_807_692), 86_810_000);
    assert_eq!(trade_builder_analysis_clamp_score(61_923_076), 61_920_000);
}

#[test]
fn quality_scores_charge_slippage_fill_time_age_and_give_back() {
    let (entry, exit) = trade_builder_analysis_quality_scores(&evidence(), Some(1_500));
    // 100 - 0.1/5.2*400 - 2*2 - 1.5 = 86.81; 100 - 0.5/5.2*300 - 0.4/5.2*120 = 61.92
    assert_eq!(entry, Some(86_810_000));
    assert_eq!(exit, Some(61_920_000));
}

#[test]
fn quality_scores_of_a_losing_thin_trade() {
    let mut e = evidence();
    e.total_pnl_usdc = -1_000_000;
    e.thin_liquidity_signal = true;
    e.entry_slippage_usdc = None;
    e.gave_back_usdc = None;
    e.max_adverse_usdc = None;
    e.submit_to_fill_ms = Some(60_000);
    let (entry, exit) = trade_builder_analysis_quality_scores(&e, Some(20_000));
    // 100 - 20 (fill capped at ten seconds) - 10 (age capped) - 12 (thin)
    assert_eq!(entry, Some(58_000_000));
    assert_eq!(exit, Some(90_000_000));
}

#[test]
fn row_totals_split_realized_and_open() {
    let mut sold = row("sell_exit", "tp");
    sold.row_pnl_usdc = 300_000;
    sold.row_qty = 4_000_000;
    sold.buy_fee_usdc = Some(10_000);
    sold.sell_fee_usdc = Some(20_000);
    sold.cost_basis_usdc = Some(2_000_000);
    let mut open = row("open_position", "");
    open.row_pnl_usdc = -100_000;
    open.row_qty = 6_000_000;
    open.buy_fee_usdc = Some(15_000);
    open.cost_basis_usdc = Some(3_000_000);
    open.net_value_usdc = Some(2_900_000);
    let t = row_totals(&[sold, open]);
    assert_eq!(t.total_pnl, 200_000);
    assert_eq!(t.realized_pnl, 300_000);
    assert_eq!(t.open_pnl, -100_000);
    assert_eq!(t.fee_drag, 45_000);
    assert_eq!(t.cost_basis, 5_000_000);
    assert_eq!(t.net_value, 2_900_000);
    assert_eq!(t.sold_qty, 4_000_000);
    assert_eq!(t.remaining_qty, 6_000_000);
}

#[test]
fn diagnostic_of_a_take_profit_trade() {
    let order = root_order("Up", None);
    let mut sold = row("sell_exit", "tp");
    sold.triggered_at = Some(at(50));
    sold.buy_filled_at = Some(at(62));
    sold.sell_filled_at = Some(at(120));
    sold.mark_or_sell_price = Some(600_000);
    sold.row_qty = 10_000_000;
    sold.row_pnl_usdc = 850_000;
    sold.buy_fee_usdc = Some(20_000);
    sold.sell_fee_usdc = Some(30_000);
    sold.cost_basis_usdc = Some(5_200_000);
    sold.net_value_usdc = Some(6_050_000);
    let mut events = HashMap::new();
    events.insert(
        1,
        vec![
            event(
                1,
                "flow_created",
                object(vec![
                    ("current_price", float("0.5")),
                    ("runtime_snapshot", object(vec![("best_ask", float("0.52"))])),
                ]),
                at(45),
            ),
            event(
                2,
                "submitted",
                object(vec![
                    ("submit_started_at", JsonValue::Str("2026-02-28T16:31:00Z".to_string())),
                    ("best_ask", float("0.51")),
                    ("execution_price", float("0.55")),
                    ("snapshot_age_ms", float("1500.4")),
                    ("guard_eval_ms", float("12.6")),
                ]),
                at(61),
            ),
            event(3, "filled", object(vec![]), at(62)),
        ],
    );
    let snapshots = vec![up_snapshot(at(70), 650_000), up_snapshot(at(100), 480_000), up_snapshot(at(180), 900_000)];
    let metrics = AutoScopeAnalysisOrderMetrics {
        qty: 10_000_000,
        notional_usdc: 5_200_000,
        fee_usdc: 20_000,
        first_filled_at: Some(at(62)),
        last_filled_at: Some(at(62)),
        avg_price: Some(520_000),
    };
    let summary = AutoScopeAnalysisSellAllocationSummary {
        observed_sell_qty: 10_000_000,
        allocated_sold_qty: 10_000_000,
        ignored_sell_qty: 0,
    };
    let d = trade_builder_analysis_build_trade_diagnostic(
        &order,
        &[sold],
        &events,
        &snapshots,
        &metrics,
        &summary,
        Some(50_000),
        Some(12_000),
    );
    assert_eq!(d.root_builder_order_id, 1);
    assert_eq!(d.definition_id, 11);
    assert_eq!(d.run_id, 3);
    assert_eq!(d.total_pnl_usdc, 850_000);
    assert_eq!(d.realized_pnl_usdc, 850_000);
    assert_eq!(d.open_pnl_usdc, 0);
    assert_eq!(d.fee_drag_usdc, 50_000);
    assert_eq!(d.cost_basis_usdc, 5_200_000);
    assert_eq!(d.net_value_usdc, 6_050_000);
    assert_eq!(d.pnl_pct, Some(16_350_000));
    assert_eq!(d.entry_trigger_price, Some(500_000));
    assert_eq!(d.entry_submit_price, Some(550_000));
    assert_eq!(d.entry_fill_price, Some(520_000));
    assert_eq!(d.entry_reference_price, Some(510_000));
    assert_eq!(d.entry_slippage_usdc, Some(100_000));
    assert_eq!(d.exit_reason.as_deref(), Some("tp"));
    assert_eq!(d.exit_price, Some(600_000));
    assert_eq!(d.best_price_during_hold, Some(650_000));
    assert_eq!(d.worst_price_during_hold, Some(480_000));
    assert_eq!(d.max_favorable_usdc, Some(1_300_000));
    assert_eq!(d.max_adverse_usdc, Some(-400_000));
    assert_eq!(d.gave_back_usdc, Some(500_000));
    assert_eq!(d.trigger_to_submit_ms, Some(10_000));
    assert_eq!(d.submit_to_fill_ms, Some(2_000));
    assert_eq!(d.hold_ms, Some(58_000));
    assert_eq!(d.snapshot_age_ms, Some(1_500));
    assert_eq!(d.guard_eval_ms, Some(13));
    assert_eq!(d.runtime_price_fetch_ms, None);
    assert_eq!(d.place_http_ms, None);
    assert_eq!(d.entry_quality_score, Some(86_810_000));
    assert_eq!(d.exit_quality_score, Some(61_920_000));
    assert_eq!(d.primary_diagnosis_code, "take_profit_success");
    assert_eq!(d.secondary_diagnosis_code, None);
    assert!(d.data_quality_flags.is_empty());
    let m = &d.compact_metrics_json;
    assert_eq!(member(m, "pnl_model_version"), Some(&JsonValue::Int(8)));
    assert_eq!(member(m, "sold_qty"), Some(&float("10.000000")));
    assert_eq!(member(m, "buy_fee_usdc"), Some(&float("0.020000")));
    assert_eq!(member(m, "path_sample_count"), Some(&JsonValue::UInt(2)));
    assert_eq!(member(m, "thin_liquidity_signal"), Some(&JsonValue::Bool(false)));
    assert_eq!(member(m, "submitted_at"), Some(&JsonValue::Str("2026-02-28T16:31:00+00:00".to_string())));
    assert_eq!(member(m, "hold_end_at"), Some(&JsonValue::Str("2026-02-28T16:32:00+00:00".to_string())));
}

#[test]
fn diagnostic_of_an_open_loss_without_records_flags_every_gap() {
    let order = root_order("Maybe", Some(480_000));
    let mut open = row("open_position", "");
    open.mark_or_sell_price = Some(400_000);
    open.mark_price_captured_at = Some(at(300));
    open.row_qty = 10_000_000;
    open.row_pnl_usdc = -1_000_000;
    open.buy_fee_usdc = Some(100_000);
    open.cost_basis_usdc = Some(4_000_000);
    let events: HashMap<i64, Vec<TradeBuilderOrderEventRecord>> = HashMap::new();
    let metrics = AutoScopeAnalysisOrderMetrics {
        qty: 10_000_000,
        notional_usdc: 4_000_000,
        fee_usdc: 100_000,
        first_filled_at: None,
        last_filled_at: None,
        avg_price: Some(500_000),
    };
    let summary = AutoScopeAnalysisSellAllocationSummary {
        observed_sell_qty: 12_000_000,
        allocated_sold_qty: 10_000_000,
        ignored_sell_qty: 2_000_000,
    };
    let d = trade_builder_analysis_build_trade_diagnostic(&order, &[open], &events, &[], &metrics, &summary, None, None);
    assert_eq!(d.total_pnl_usdc, -1_000_000);
    assert_eq!(d.open_pnl_usdc, -1_000_000);
    assert_eq!(d.realized_pnl_usdc, 0);
    assert_eq!(d.pnl_pct, Some(-25_000_000));
    assert_eq!(d.entry_trigger_price, Some(500_000));
    assert_eq!(d.entry_submit_price, Some(480_000));
    assert_eq!(d.entry_reference_price, None);
    assert_eq!(d.hold_ms, None);
    assert_eq!(d.best_price_during_hold, None);
    assert_eq!(d.entry_quality_score, Some(100_000_000));
    assert_eq!(d.exit_quality_score, Some(90_000_000));
    assert_eq!(d.primary_diagnosis_code, "unrealized_mark_loss");
    assert_eq!(d.secondary_diagnosis_code, None);
    assert_eq!(
        d.data_quality_flags,
        vec![
            "missing_trigger_event",
            "missing_submitted_event",
            "missing_filled_event",
            "missing_buy_fill_time",
            "missing_entry_reference_price",
            "unknown_outcome_side",
            "missing_second_snapshots",
            "open_position_mark",
            "oversold_exit_qty",
            "old_trade_best_effort",
        ]
    );
    let m = &d.compact_metrics_json;
    assert_eq!(member(m, "remaining_qty"), Some(&float("10.000000")));
    assert_eq!(member(m, "ignored_sell_qty"), Some(&float("2.000000")));
    assert_eq!(member(m, "submitted_at"), Some(&JsonValue::Null));
}

#[test]
fn fallback_metrics_add_up_positive_fills_only() {
    let events = vec![
        event(3, "filled", object(vec![("actual_fill_qty", float("4")), ("execution_price", float("0.55"))]), at(90)),
        event(1, "submitted", object(vec![("actual_fill_qty", float("9")), ("execution_price", float("0.5"))]), at(10)),
        event(2, "filled", object(vec![("canonical_entry_qty", float("6")), ("execution_price", float("0.5"))]), at(60)),
        event(4, "filled", object(vec![("actual_fill_qty", float("0")), ("execution_price", float("0.9"))]), at(5)),
        event(5, "filled", object(vec![("actual_fill_qty", float("2"))]), at(4)),
    ];
    let m = trade_builder_analysis_fallback_order_metrics(&events);
    assert_eq!(m.qty, 10_000_000);
    // 4 * 0.55 + 6 * 0.5
    assert_eq!(m.notional_usdc, 5_200_000);
    assert_eq!(m.fee_usdc, 0);
    assert_eq!(m.first_filled_at, Some(at(60)));
    assert_eq!(m.last_filled_at, Some(at(90)));
    assert_eq!(m.avg_price, Some(520_000));
    let none = trade_builder_analysis_fallback_order_metrics(&events[1..2]);
    assert_eq!(none.qty, 0);
    assert_eq!(none.avg_price, None);
    assert_eq!(none.first_filled_at, None);
}

#[test]
fn sell_summary_counts_sell_exits_only() {
    let mut sold = row("sell_exit", "tp");
    sold.row_qty = 4_004_000;
    let mut open = row("open_position", "");
    open.row_qty = 6_000_000;
    let s = trade_builder_analysis_sell_summary_from_rows(&[sold, open]);
    assert_eq!(s.observed_sell_qty, 4_000_000);
    assert_eq!(s.allocated_sold_qty, 4_000_000);
    assert_eq!(s.ignored_sell_qty, 0);
}
