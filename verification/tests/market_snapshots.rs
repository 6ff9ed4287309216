use bot_runner::diagnosis::{
    trade_builder_analysis_choose_diagnosis, trade_builder_analysis_diagnosis_candidates, AutoScopeDiagnosticEvidence,
};
use bot_runner::json::JsonValue;
use bot_runner::market_snapshots::{
    build_ptb_payload_from_snapshots, directional_ptb_gap, nearest_gap_at_or_before,
    trade_builder_analysis_price_path, trade_builder_analysis_snapshot_exit_price, TradeBuilderMarketSecondSnapshot,
};
use bot_runner::order::{TradeBuilderOrder, TRADE_BUILDER_SIZE_BASIS_SHARES};

const SLUG: &str = "btc-updown-5m-1772296200";
const SECOND: i64 = 1_000_000;
const EVENT_TS: i64 = 1_772_296_260 * SECOND;

fn entry_order(outcome_label: &str) -> TradeBuilderOrder {
    TradeBuilderOrder {
        id: 1,
        user_id: 7,
        kind: "conditional".to_string(),
        status: "armed".to_string(),
        market_slug: SLUG.to_string(),
        token_id: "tok-up".to_string(),
        outcome_label: outcome_label.to_string(),
        side: "buy".to_string(),
        execution_mode: "market".to_string(),
        trigger_condition: Some("cross_above".to_string()),
        trigger_price: Some(500_000),
        size_basis: TRADE_BUILDER_SIZE_BASIS_SHARES.to_string(),
        last_error: None,
        last_seen_price: None,
        working_price: None,
        sl_trigger_price_mode: None,
        created_at: 100,
        parent_order_id: None,
        origin_flow_run_id: None,
        tp_enabled: false,
        tp_price: None,
        tp_rules_json: Vec::new(),
        sl_enabled: false,
        sl_price: None,
        sl_rules_json: Vec::new(),
        time_exit_rules_json: Vec::new(),
        retry_on_execution_floor_guard_block: false,
        ptb_stop_loss_gap_usd: None,
        ptb_stop_loss_rules_json: Vec::new(),
        exit_ladder_kind: None,
        exit_ladder_index: None,
        exit_ladder_size_pct: None,
    }
}

fn snapshot(slug: &str, second_ts: i64, ptb: Option<i64>, chainlink: Option<i64>) -> TradeBuilderMarketSecondSnapshot {
    TradeBuilderMarketSecondSnapshot {
        market_slug: slug.to_string(),
        asset: "btc".to_string(),
        window_start: 1_772_296_200 * SECOND,
        window_end: 1_772_296_500 * SECOND,
        second_ts,
        ptb_ref_price: ptb,
        chainlink_price: chainlink,
        yes_best_bid: None,
        yes_best_ask: None,
        yes_ask_depth_usdc: None,
        no_best_bid: None,
        no_best_ask: None,
        no_ask_depth_usdc: None,
        sample_count: 1,
    }
}

fn member<'a>(v: &'a JsonValue, key: &str) -> Option<&'a JsonValue> {
    match v {
        JsonValue::Object(members) => members.iter().find(|(k, _)| k == key).map(|(_, v)| v),
        _ => None,
    }
}

fn float(text: &str) -> JsonValue {
    JsonValue::Float(text.to_string())
}

#[test]
fn directional_gap_follows_the_outcome() {
    let s = snapshot(SLUG, 0, Some(100_000_000), Some(103_500_000));
    assert_eq!(directional_ptb_gap(&s, "UP"), Some(3_500_000));
    assert_eq!(directional_ptb_gap(&s, "DOWN"), Some(-3_500_000));
    assert_eq!(directional_ptb_gap(&snapshot(SLUG, 0, None, Some(1)), "UP"), None);
    assert_eq!(directional_ptb_gap(&snapshot(SLUG, 0, Some(i64::MIN), Some(i64::MAX)), "UP"), None);
}

#[test]
fn nearest_gap_takes_the_latest_sample_not_after_the_target() {
    let samples = [(30, 3), (10, 1), (20, 2), (20, 22)];
    assert_eq!(nearest_gap_at_or_before(&samples, 25), Some(22));
    assert_eq!(nearest_gap_at_or_before(&samples, 30), Some(3));
    assert_eq!(nearest_gap_at_or_before(&samples, 10), Some(1));
    assert_eq!(nearest_gap_at_or_before(&samples, 5), Some(1));
    assert_eq!(nearest_gap_at_or_before(&[(10, 1), (10, 5)], 5), Some(1));
    assert_eq!(nearest_gap_at_or_before(&[], 5), None);
}

#[test]
fn ptb_payload_tracks_the_gap_history() {
    let order = entry_order("Up");
    let snaps = vec![
        snapshot(SLUG, EVENT_TS - 20 * SECOND, Some(100_000_000), Some(109_000_000)),
        snapshot(SLUG, EVENT_TS - 5 * SECOND, Some(100_000_000), Some(106_000_000)),
        snapshot(SLUG, EVENT_TS - 3 * SECOND, Some(100_000_000), Some(104_000_000)),
        snapshot("eth-updown-5m-1772296200", EVENT_TS, Some(1), Some(1_000_000_000)),
        snapshot(SLUG, EVENT_TS - 1, Some(100_000_000), None),
        snapshot(SLUG, EVENT_TS, Some(100_000_000), Some(101_000_000)),
    ];
    let p = build_ptb_payload_from_snapshots(&order, EVENT_TS, &snaps);
    assert_eq!(member(&p, "history_key"), Some(&JsonValue::Str(format!("{SLUG}:UP:tok-up"))));
    assert_eq!(member(&p, "gap_now"), Some(&float("1.000000")));
    assert_eq!(member(&p, "gap_3s_ago"), Some(&float("4.000000")));
    assert_eq!(member(&p, "gap_5s_ago"), Some(&float("6.000000")));
    assert_eq!(member(&p, "gap_10s_ago"), Some(&float("9.000000")));
    assert_eq!(member(&p, "slope_3s"), Some(&float("-3.000000")));
    assert_eq!(member(&p, "slope_5s"), Some(&float("-5.000000")));
    assert_eq!(member(&p, "slope_10s"), Some(&float("-8.000000")));
    assert_eq!(member(&p, "trend"), Some(&JsonValue::Str("collapsing".to_string())));
    assert_eq!(member(&p, "peak_last_30s"), Some(&float("9.000000")));
    assert_eq!(member(&p, "seconds_since_peak"), Some(&float("20.000000")));
    assert_eq!(member(&p, "drawdown_from_peak"), Some(&float("8.000000")));
}

#[test]
fn ptb_payload_without_samples_is_unknown() {
    let order = entry_order("Down");
    let p = build_ptb_payload_from_snapshots(&order, EVENT_TS, &[]);
    assert_eq!(member(&p, "history_key"), Some(&JsonValue::Str(format!("{SLUG}:DOWN:tok-up"))));
    assert_eq!(member(&p, "gap_now"), Some(&JsonValue::Null));
    assert_eq!(member(&p, "trend"), Some(&JsonValue::Str("unknown".to_string())));
    assert_eq!(member(&p, "peak_last_30s"), Some(&JsonValue::Null));
    let odd = entry_order("Maybe");
    let flat = vec![snapshot(SLUG, EVENT_TS - 40 * SECOND, Some(1_000_000), Some(2_000_000))];
    let p = build_ptb_payload_from_snapshots(&odd, EVENT_TS, &flat);
    assert_eq!(member(&p, "history_key"), Some(&JsonValue::Str(format!("{SLUG}:UP:tok-up"))));
    assert_eq!(member(&p, "gap_now"), Some(&float("1.000000")));
    assert_eq!(member(&p, "trend"), Some(&JsonValue::Str("flat".to_string())));
    assert_eq!(member(&p, "peak_last_30s"), Some(&JsonValue::Null));
    assert_eq!(member(&p, "drawdown_from_peak"), Some(&JsonValue::Null));
}

#[test]
fn exit_price_and_price_path_of_a_hold() {
    let mut a = snapshot(SLUG, 10, None, None);
    a.yes_best_bid = Some(600_000);
    a.no_best_ask = Some(1_200_000);
    let mut b = snapshot(SLUG, 20, None, None);
    b.yes_best_ask = Some(700_000);
    let mut c = snapshot(SLUG, 30, None, None);
    c.yes_best_bid = Some(500_000);
    let d = snapshot(SLUG, 40, None, None);
    assert_eq!(trade_builder_analysis_snapshot_exit_price(&a, "Up"), Some(600_000));
    assert_eq!(trade_builder_analysis_snapshot_exit_price(&a, "No"), Some(1_000_000));
    assert_eq!(trade_builder_analysis_snapshot_exit_price(&a, "Other"), None);
    let snaps = vec![a, b, c, d];
    let path = trade_builder_analysis_price_path(&snaps, "Up", Some(10), Some(30));
    assert_eq!(path.best_price, Some(700_000));
    assert_eq!(path.worst_price, Some(500_000));
    assert_eq!(path.sample_count, 3);
    let late = trade_builder_analysis_price_path(&snaps, "Up", Some(25), None);
    assert_eq!(late.best_price, Some(500_000));
    assert_eq!(late.sample_count, 1);
    let none = trade_builder_analysis_price_path(&snaps, "Up", Some(41), None);
    assert_eq!(none.best_price, None);
    assert_eq!(none.worst_price, None);
    assert_eq!(none.sample_count, 0);
}

fn evidence(total_pnl_usdc: i64) -> AutoScopeDiagnosticEvidence {
    AutoScopeDiagnosticEvidence {
        total_pnl_usdc,
        fee_drag_usdc: 0,
        cost_basis_usdc: 1_000_000,
        entry_slippage_usdc: None,
        exit_reason: None,
        gave_back_usdc: None,
        max_adverse_usdc: None,
        open_to_trigger_ms: None,
        trigger_to_buy_fill_ms: None,
        submit_to_fill_ms: None,
        thin_liquidity_signal: false,
        is_open_position: false,
    }
}

fn codes(e: &AutoScopeDiagnosticEvidence) -> Vec<&'static str> {
    trade_builder_analysis_diagnosis_candidates(e).iter().map(|c| c.code).collect()
}

#[test]
fn winning_and_flat_trades() {
    let tp = AutoScopeDiagnosticEvidence { exit_reason: Some("tp".to_string()), ..evidence(101) };
    assert_eq!(codes(&tp), vec!["take_profit_success"]);
    assert_eq!(codes(&evidence(101)), vec!["clean_win"]);
    let flat = trade_builder_analysis_diagnosis_candidates(&evidence(100));
    assert_eq!(flat.len(), 1);
    assert_eq!(flat[0].code, "unknown");
    assert_eq!(flat[0].label, "Basa bas");
    assert_eq!(codes(&evidence(-100)), vec!["unknown"]);
}

#[test]
fn losing_trade_causes_in_order() {
    let e = AutoScopeDiagnosticEvidence {
        is_open_position: true,
        entry_slippage_usdc: Some(15_000),
        open_to_trigger_ms: Some(90_001),
        trigger_to_buy_fill_ms: None,
        submit_to_fill_ms: Some(3_001),
        thin_liquidity_signal: true,
        fee_drag_usdc: 30_000,
        gave_back_usdc: Some(48_000),
        max_adverse_usdc: Some(-48_000),
        exit_reason: Some("sl".to_string()),
        ..evidence(-60_000)
    };
    assert_eq!(
        codes(&e),
        vec![
            "unrealized_mark_loss",
            "bad_entry_price",
            "late_entry",
            "slow_fill",
            "thin_liquidity",
            "fee_drag",
            "exit_too_late",
            "market_reversal",
            "stop_loss_expected",
        ]
    );
    let (primary, secondary, label, _detail) = trade_builder_analysis_choose_diagnosis(&e);
    assert_eq!(primary, "unrealized_mark_loss");
    assert_eq!(secondary.as_deref(), Some("bad_entry_price"));
    assert_eq!(label, "Acik pozisyon mark zarari");
}

#[test]
fn losing_trade_thresholds() {
    let below = AutoScopeDiagnosticEvidence {
        entry_slippage_usdc: Some(14_999),
        open_to_trigger_ms: Some(90_000),
        trigger_to_buy_fill_ms: Some(3_000),
        submit_to_fill_ms: Some(9_000),
        fee_drag_usdc: 29_999,
        gave_back_usdc: Some(47_999),
        max_adverse_usdc: Some(-20_000),
        ..evidence(-60_000)
    };
    assert_eq!(codes(&below), vec!["unknown"]);
    let (primary, secondary, label, _detail) = trade_builder_analysis_choose_diagnosis(&below);
    assert_eq!(primary, "unknown");
    assert_eq!(secondary, None);
    assert_eq!(label, "Net neden yok");
    let fee_heavy = AutoScopeDiagnosticEvidence { fee_drag_usdc: 48_000, ..evidence(-60_000) };
    assert_eq!(codes(&fee_heavy), vec!["fee_drag"]);
    let big_slip = AutoScopeDiagnosticEvidence { entry_slippage_usdc: Some(20_000), cost_basis_usdc: 10_000_000, ..evidence(-60_000) };
    assert_eq!(codes(&big_slip), vec!["bad_entry_price"]);
}

fn quoted_snapshot(second_ts: i64, yes_bid: i64, yes_ask: i64, no_bid: i64, no_ask: i64) -> TradeBuilderMarketSecondSnapshot {
    TradeBuilderMarketSecondSnapshot {
        market_slug: SLUG.to_string(),
        asset: "btc".to_string(),
        window_start: 1_772_296_200 * SECOND,
        window_end: 1_772_296_500 * SECOND,
        second_ts,
        ptb_ref_price: None,
        chainlink_price: None,
        yes_best_bid: Some(yes_bid),
        yes_best_ask: Some(yes_ask),
        yes_ask_depth_usdc: Some(100_000_000),
        no_best_bid: Some(no_bid),
        no_best_ask: Some(no_ask),
        no_ask_depth_usdc: Some(100_000_000),
        sample_count: 1,
    }
}

#[test]
fn diagnostics_price_path_uses_outcome_bid_prices() {
    let start = 1_772_296_200 * SECOND;
    let snapshots = vec![
        quoted_snapshot(start + SECOND, 410_000, 420_000, 580_000, 590_000),
        quoted_snapshot(start + 2 * SECOND, 370_000, 380_000, 620_000, 630_000),
    ];
    let path = trade_builder_analysis_price_path(&snapshots, "Up", Some(start), Some(start + 3 * SECOND));
    assert_eq!(path.sample_count, 2);
    assert_eq!(path.best_price, Some(410_000));
    assert_eq!(path.worst_price, Some(370_000));
}

#[test]
fn diagnostics_classifier_prioritizes_bad_entry_for_loss() {
    let evidence = AutoScopeDiagnosticEvidence {
        total_pnl_usdc: -1_000_000,
        fee_drag_usdc: 50_000,
        cost_basis_usdc: 10_000_000,
        entry_slippage_usdc: Some(250_000),
        exit_reason: Some("sl".to_string()),
        gave_back_usdc: Some(0),
        max_adverse_usdc: Some(-900_000),
        open_to_trigger_ms: Some(10_000),
        trigger_to_buy_fill_ms: Some(500),
        submit_to_fill_ms: Some(500),
        thin_liquidity_signal: false,
        is_open_position: false,
    };
    let (primary, secondary, label, _) = trade_builder_analysis_choose_diagnosis(&evidence);
    assert_eq!(primary, "bad_entry_price");
    assert_eq!(secondary, Some("market_reversal".to_string()));
    assert_eq!(label, "Kotu giris fiyati");
}
