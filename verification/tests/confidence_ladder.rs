use bot_runner::confidence_ladder::{
    confidence_ladder_all_in_cost, confidence_ladder_band_for_price, confidence_ladder_dominant_buy_decision,
    confidence_ladder_elapsed_sec, confidence_ladder_fee, confidence_ladder_hedge_decision,
    confidence_ladder_heuristic_model, confidence_ladder_in_entry_window, confidence_ladder_loss_cap_quantity,
    confidence_ladder_projected_worst_case_pnl, confidence_ladder_risk_allows_buy, confidence_ladder_select_decision,
    confidence_ladder_side_flip_disabled, confidence_ladder_strong_profit_lock_quantity, parse_confidence_ladder_config,
    ConfidenceLadderConfig, ConfidenceLadderConfigError, ConfidenceLadderModel, ConfidenceLadderQuote,
    TradeBuilderConfidenceLadderState,
};
use bot_runner::flow::{TradeFlowNode, TradeFlowRunStep};
use bot_runner::json::JsonValue;

const M: i64 = 1_000_000;

fn state(up_qty: i64, down_qty: i64, total_cost_usdc: i64) -> TradeBuilderConfidenceLadderState {
    TradeBuilderConfidenceLadderState {
        up_qty,
        down_qty,
        total_cost_usdc,
        worst_case_pnl: up_qty.min(down_qty) - total_cost_usdc,
        ..TradeBuilderConfidenceLadderState::default()
    }
}

fn empty_state() -> TradeBuilderConfidenceLadderState {
    TradeBuilderConfidenceLadderState::default()
}

fn quote(side: &'static str, bid: i64, ask: i64) -> ConfidenceLadderQuote {
    ConfidenceLadderQuote {
        ladder_side: side,
        token_id: side.to_string(),
        outcome_label: if side == "up" { "Up" } else { "Down" }.to_string(),
        best_bid: Some(bid),
        best_ask: Some(ask),
        best_bid_size: None,
        best_ask_size: None,
        last_trade_price: Some(ask),
        current_price: ask,
        snapshot: JsonValue::Null,
    }
}

fn model(p_up: i64, chop: i64, dominant_side: Option<&'static str>) -> ConfidenceLadderModel {
    ConfidenceLadderModel {
        p_up,
        p_down: M - p_up,
        chop,
        score_up: p_up,
        score_down: M - p_up,
        dominant_side,
        diagnostics: JsonValue::Null,
    }
}

fn object(members: Vec<(&str, JsonValue)>) -> JsonValue {
    JsonValue::Object(members.into_iter().map(|(k, v)| (k.to_string(), v)).collect())
}

fn float(text: &str) -> JsonValue {
    JsonValue::Float(text.to_string())
}

fn node(config: JsonValue) -> TradeFlowNode {
    TradeFlowNode { key: "ladder".to_string(), node_type: "action.place_order".to_string(), config }
}

fn step(input: Option<JsonValue>) -> TradeFlowRunStep {
    TradeFlowRunStep {
        id: 1,
        run_id: 1,
        node_key: "ladder".to_string(),
        node_type: "action.place_order".to_string(),
        status: "running".to_string(),
        attempt: 1,
        input_json: input,
        output_json: None,
        error_text: None,
        started_at: None,
        ended_at: None,
        available_at: 0,
        parent_step_id: None,
        idempotency_key: None,
        created_at: 0,
    }
}

fn member<'a>(v: &'a JsonValue, key: &str) -> Option<&'a JsonValue> {
    match v {
        JsonValue::Object(members) => members.iter().find(|(k, _)| k == key).map(|(_, v)| v),
        _ => None,
    }
}

#[test]
fn confidence_ladder_strong_profit_lock_targets_unmatched_qty() {
    let config = ConfidenceLadderConfig::default();
    let state = state(12 * M, 0, 8_280_000);
    let qty = confidence_ladder_strong_profit_lock_quantity(&config, &state, "up", "down", 140_000)
        .expect("strong lock quantity");
    assert_eq!(qty, 12 * M);
}

#[test]
fn confidence_ladder_loss_cap_quantity_targets_three_usdc_cap() {
    let config = ConfidenceLadderConfig::default();
    let state = state(12 * M, 0, 8_280_000);
    let plan = confidence_ladder_loss_cap_quantity(&config, &state, "up", "down", 540_000, -3 * M)
        .expect("loss cap quantity");
    assert!((11_480_000..=11_500_000).contains(&plan.quantity));
    let projected = confidence_ladder_projected_worst_case_pnl(&state, "down", plan.quantity, 540_000);
    assert!(projected >= -3 * M as i128);
}

#[test]
fn confidence_ladder_loss_cap_never_exceeds_held_side() {
    let config = ConfidenceLadderConfig::default();
    let state = state(4 * M, 0, 8_280_000);
    assert!(confidence_ladder_loss_cap_quantity(&config, &state, "up", "down", 540_000, -3 * M).is_none());
}

#[test]
fn confidence_ladder_fee_and_all_in_cost_match_crypto_fee_formula() {
    let config = ConfidenceLadderConfig::default();
    let fee = confidence_ladder_fee(900_000, config.taker_fee_rate);
    assert_eq!(fee, 6_300);
    let all_in = confidence_ladder_all_in_cost(900_000, &config, true);
    assert_eq!(all_in, 911_300);
}

#[test]
fn confidence_ladder_hard_no_chase_blocks_93c_and_above() {
    let config = ConfidenceLadderConfig::default();
    assert!(confidence_ladder_band_for_price(&config, 920_000).is_none());
    assert!(confidence_ladder_band_for_price(&config, 930_000).is_none());
    assert!(confidence_ladder_band_for_price(&config, 800_000).is_some());
}

#[test]
fn confidence_ladder_worst_case_pnl_blocks_over_limit() {
    let config = ConfidenceLadderConfig::default();
    let state = TradeBuilderConfidenceLadderState { up_qty: 8 * M, down_qty: 0, total_cost_usdc: 4 * M, ..empty_state() };
    assert!(!confidence_ladder_risk_allows_buy(&config, &state, "up", 8 * M, 800_000));
    assert!(confidence_ladder_risk_allows_buy(&config, &state, "down", 4 * M, 150_000));
}

#[test]
fn confidence_ladder_hedge_pair_cost_requires_profit_lock_margin() {
    let config = ConfidenceLadderConfig::default();
    let state = TradeBuilderConfidenceLadderState {
        up_qty: 12 * M,
        down_qty: 0,
        total_cost_usdc: 8_280_000,
        up_cost_usdc: 8_280_000,
        up_avg_cost: Some(690_000),
        ..empty_state()
    };
    let model = ConfidenceLadderModel {
        p_up: 820_000,
        p_down: 180_000,
        chop: 200_000,
        score_up: 700_000,
        score_down: 300_000,
        dominant_side: Some("up"),
        diagnostics: JsonValue::Null,
    };
    let decision =
        confidence_ladder_hedge_decision(&config, &state, &model, &quote("up", 860_000, 880_000), &quote("down", 110_000, 120_000))
            .expect("hedge decision");
    assert_eq!(decision.ladder_side, "down");
    assert_eq!(decision.intent, "profit_lock_strong");
    assert_eq!(decision.quantity, 12 * M);
}

#[test]
fn confidence_ladder_late_reversal_uses_damage_control_opposite_buy() {
    let config = ConfidenceLadderConfig::default();
    let state = TradeBuilderConfidenceLadderState {
        up_qty: 12 * M,
        down_qty: 0,
        total_cost_usdc: 8_280_000,
        up_cost_usdc: 8_280_000,
        up_avg_cost: Some(690_000),
        worst_case_pnl: -8_280_000,
        ..empty_state()
    };
    let model = ConfidenceLadderModel {
        p_up: 300_000,
        p_down: 700_000,
        chop: 200_000,
        score_up: 300_000,
        score_down: 700_000,
        dominant_side: Some("down"),
        diagnostics: JsonValue::Null,
    };
    let decision =
        confidence_ladder_hedge_decision(&config, &state, &model, &quote("up", 470_000, 490_000), &quote("down", 510_000, 520_000))
            .expect("damage control decision");
    assert_eq!(decision.ladder_side, "down");
    assert_eq!(decision.intent, "damage_control_hedge");
    assert!(decision.quantity <= state.up_qty);
    assert!(
        confidence_ladder_projected_worst_case_pnl(&state, decision.ladder_side, decision.quantity, decision.all_in_cost)
            >= -(config.max_loss_per_market_usdc as i128)
    );
}

#[test]
fn confidence_ladder_side_flip_disable_uses_configured_cap() {
    let config = ConfidenceLadderConfig::default();
    let state = TradeBuilderConfidenceLadderState { side_switch_count: 2, ..empty_state() };
    assert!(confidence_ladder_side_flip_disabled(&config, &state));
}

#[test]
fn damage_control_buys_enough_to_cap_the_loss() {
    let config = ConfidenceLadderConfig::default();
    let state = TradeBuilderConfidenceLadderState {
        up_qty: 12 * M,
        total_cost_usdc: 8_280_000,
        up_avg_cost: Some(690_000),
        worst_case_pnl: -8_280_000,
        ..empty_state()
    };
    let decision = confidence_ladder_hedge_decision(
        &config,
        &state,
        &model(300_000, 200_000, Some("down")),
        &quote("up", 470_000, 490_000),
        &quote("down", 510_000, 520_000),
    )
    .expect("damage control decision");
    // all in: 0.52 + 0.07 * 0.52 * 0.48 + 0.005; (3 less the loss so far) over its complement
    assert_eq!(decision.all_in_cost, 542_472);
    assert_eq!(decision.quantity, 11_550_000);
    assert_eq!(decision.edge, 700_000 - 542_472);
    assert!(decision.post_only);
    assert_eq!(decision.order_type, "GTC");
    assert_eq!(member(&decision.diagnostics, "hedge_reason"), Some(&JsonValue::Str("max_loss_cap".to_string())));
    assert_eq!(member(&decision.diagnostics, "damage_control"), Some(&JsonValue::Bool(true)));
}

#[test]
fn dominant_side_probes_then_adds_by_band() {
    let config = ConfidenceLadderConfig::default();
    let up = quote("up", 520_000, 540_000);
    let down = quote("down", 440_000, 460_000);
    let m = model(700_000, 200_000, Some("up"));
    let probe = confidence_ladder_dominant_buy_decision(&config, &empty_state(), &m, &up, &down, Some(200))
        .expect("probe");
    assert_eq!(probe.intent, "probe");
    assert_eq!(probe.ladder_side, "up");
    assert_eq!(probe.quantity, 2 * M);
    assert_eq!(probe.all_in_cost, 562_388);
    assert_eq!(probe.edge, 137_612);
    assert_eq!(probe.min_edge, 20_000);
    let bought = TradeBuilderConfidenceLadderState { buy_count: 1, up_qty: 2 * M, total_cost_usdc: 1_124_776, ..empty_state() };
    let add = confidence_ladder_dominant_buy_decision(&config, &bought, &m, &up, &down, Some(200)).expect("ladder add");
    assert_eq!(add.intent, "ladder_add");
    assert_eq!(add.quantity, 2 * M);
    // Too late in the market, or before the entry window opens.
    assert!(confidence_ladder_dominant_buy_decision(&config, &empty_state(), &m, &up, &down, Some(10)).is_none());
    assert!(confidence_ladder_dominant_buy_decision(&config, &empty_state(), &m, &up, &down, Some(299)).is_none());
    // A probe above the probe range.
    let dear = quote("up", 560_000, 570_000);
    assert!(confidence_ladder_dominant_buy_decision(&config, &empty_state(), &m, &dear, &down, Some(200)).is_none());
}

#[test]
fn select_decision_hedges_once_adding_stops() {
    let config = ConfidenceLadderConfig::default();
    let up = quote("up", 520_000, 540_000);
    let down = quote("down", 440_000, 460_000);
    let (decision, stop_adding) =
        confidence_ladder_select_decision(&config, &empty_state(), &model(700_000, 200_000, Some("up")), &up, &down, Some(200));
    assert!(!stop_adding);
    assert_eq!(decision.expect("probe").intent, "probe");
    let (decision, stop_adding) =
        confidence_ladder_select_decision(&config, &empty_state(), &model(700_000, 200_000, None), &up, &down, Some(200));
    assert!(stop_adding);
    assert!(decision.is_none());
}

#[test]
fn entry_window_counts_the_seconds_elapsed() {
    let config = ConfidenceLadderConfig::default();
    assert_eq!(confidence_ladder_elapsed_sec(Some(120)), Some(180));
    assert_eq!(confidence_ladder_elapsed_sec(Some(400)), Some(0));
    assert_eq!(confidence_ladder_elapsed_sec(Some(-5)), Some(300));
    assert!(confidence_ladder_in_entry_window(&config, Some(120)));
    assert!(!confidence_ladder_in_entry_window(&config, Some(299)));
    assert!(!confidence_ladder_in_entry_window(&config, Some(10)));
    assert!(confidence_ladder_in_entry_window(&config, None));
}

#[test]
fn heuristic_model_weighs_signal_momentum_and_chop() {
    let config = ConfidenceLadderConfig::default();
    let up = quote("up", 550_000, 570_000);
    let down = quote("down", 420_000, 440_000);
    let s = step(Some(object(vec![("btcImpulse", float("0.4"))])));
    let m = confidence_ladder_heuristic_model(&config, &empty_state(), &up, &down, &s, &JsonValue::Null);
    // chop 0.08 + 0.1 * (0.02 / 0.03); directional 0.35 * 0.4 + 0.25 * 0.26
    assert_eq!(m.chop, 146_667);
    assert_eq!(m.score_up, 594_983);
    assert_eq!(m.score_down, 405_017);
    assert_eq!(m.p_up, 556_389);
    assert_eq!(m.p_down, 443_611);
    assert_eq!(m.dominant_side, Some("up"));
    assert_eq!(member(&m.diagnostics, "btc_gap"), Some(&float("0.400000")));
    assert_eq!(member(&m.diagnostics, "polymarket_mid_momentum"), Some(&float("0.260000")));
}

#[test]
fn heuristic_model_reads_the_signal_from_the_flow_context() {
    let config = ConfidenceLadderConfig::default();
    let up = quote("up", 550_000, 570_000);
    let down = quote("down", 420_000, 440_000);
    let context = object(vec![("flowContext", object(vec![("cex_impulse", float("-2.5"))]))]);
    let m = confidence_ladder_heuristic_model(&config, &empty_state(), &up, &down, &step(None), &context);
    assert_eq!(member(&m.diagnostics, "btc_gap"), Some(&float("-1.000000")));
}

#[test]
fn parse_config_defaults_and_overrides() {
    let config = parse_confidence_ladder_config(&node(object(vec![]))).expect("defaults");
    assert_eq!(config.base_probe_shares, 2 * M);
    assert_eq!(config.probe_price_min, 450_000);
    assert_eq!(config.ladder.len(), 5);
    let overridden = parse_confidence_ladder_config(&node(object(vec![
        (
            "confidenceLadder",
            object(vec![
                ("baseProbeShares", float("3.5")),
                ("probe", object(vec![("min", JsonValue::Int(40)), ("max", JsonValue::Int(60))])),
                ("hedge", object(vec![("damageControlPriceMax", float("0.7"))])),
                ("entryWindow", object(vec![("startSec", JsonValue::Int(10))])),
                ("preferPostOnly", JsonValue::Str("off".to_string())),
            ]),
        ),
        ("maxSpread", float("0.05")),
    ])))
    .expect("overridden");
    assert_eq!(overridden.base_probe_shares, 3_500_000);
    assert_eq!(overridden.probe_price_min, 400_000);
    assert_eq!(overridden.probe_price_max, 600_000);
    assert_eq!(overridden.damage_control_price_max, 700_000);
    assert_eq!(overridden.entry_window_start_sec, 10);
    assert_eq!(overridden.max_spread, 50_000);
    assert!(!overridden.prefer_post_only);
}

#[test]
fn parse_config_refuses_bad_settings() {
    let refuse = |members: Vec<(&str, JsonValue)>| {
        parse_confidence_ladder_config(&node(object(vec![("confidenceLadder", object(members))])))
    };
    assert!(matches!(refuse(vec![("baseProbeShares", JsonValue::Int(0))]), Err(ConfidenceLadderConfigError::BaseProbeShares)));
    assert!(matches!(refuse(vec![("maxLossPerMarketUsdc", float("-1"))]), Err(ConfidenceLadderConfigError::MaxLossPerMarket)));
    assert!(matches!(
        refuse(vec![("maxTotalCostPerMarketUsdc", JsonValue::Int(0))]),
        Err(ConfidenceLadderConfigError::MaxTotalCostPerMarket)
    ));
    assert!(matches!(refuse(vec![("entryWindowEndSec", JsonValue::Int(3))]), Err(ConfidenceLadderConfigError::EntryWindow)));
    assert!(matches!(refuse(vec![("probePriceMin", float("0.6"))]), Err(ConfidenceLadderConfigError::ProbeRange)));
    assert!(matches!(refuse(vec![("maxSpread", JsonValue::Int(1))]), Err(ConfidenceLadderConfigError::MaxSpread)));
    let err = refuse(vec![("damageControlPriceMin", float("0.65"))]).err().expect("refused");
    assert!(matches!(err, ConfidenceLadderConfigError::DamageControlPrices));
    assert_eq!(err.message(), "confidenceLadder.hedge damage control prices must satisfy 0 < min < max < 1");
}
