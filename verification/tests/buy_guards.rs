use bot_runner::buy_guards::{clamp_probability, evaluate_trade_builder_buy_guards, BuyGuardInputs};
use bot_runner::decision_log_fields::{decision_volume_regime, risk_tag_thresholds_payload};
use bot_runner::json::JsonValue;

fn member<'a>(v: &'a JsonValue, key: &str) -> Option<&'a JsonValue> {
    match v {
        JsonValue::Object(members) => members.iter().find(|(k, _)| k == key).map(|(_, v)| v),
        _ => None,
    }
}

fn text_of<'a>(v: &'a JsonValue, key: &str) -> Option<&'a str> {
    match member(v, key) {
        Some(JsonValue::Str(s)) => Some(s.as_str()),
        _ => None,
    }
}

fn inputs() -> BuyGuardInputs<'static> {
    BuyGuardInputs {
        execution_mode: "market",
        pair_leg_role: None,
        current_price: 550_000,
        best_ask: Some(560_000),
        desired_price: 570_000,
        guard_trigger_price: None,
        max_price: None,
        best_ask_floor_price: None,
        retry_on_trigger_guard_block: false,
        retry_on_execution_floor_guard_block: false,
        retry_on_max_price_block: false,
    }
}

#[test]
fn unguarded_buy_passes() {
    let e = evaluate_trade_builder_buy_guards(&inputs());
    assert_eq!(e.effective_decision, "passed");
    assert_eq!(e.effective_reason_code, "guards_passed");
    assert_eq!(text_of(&e.trigger_price_guard_payload, "decision"), Some("not_configured"));
    assert_eq!(e.trigger_guard_reference_price, 560_000);
    assert_eq!(e.trigger_guard_reference_source, "best_ask");
    assert_eq!(e.max_price_reference_source, "best_ask");
}

#[test]
fn trigger_guard_blocks_or_waits_below_guard_price() {
    let blocked = evaluate_trade_builder_buy_guards(&BuyGuardInputs { guard_trigger_price: Some(600_000), ..inputs() });
    assert!(blocked.trigger_price_guard_blocked);
    assert_eq!(blocked.effective_decision, "blocked");
    assert_eq!(blocked.effective_reason_code, "below_trigger_price_guard");
    let details = member(&blocked.trigger_price_guard_payload, "details").expect("details");
    assert_eq!(member(details, "guard_trigger_price"), Some(&JsonValue::Float("0.600000".to_string())));
    let waiting = evaluate_trade_builder_buy_guards(&BuyGuardInputs {
        guard_trigger_price: Some(600_000),
        retry_on_trigger_guard_block: true,
        ..inputs()
    });
    assert_eq!(waiting.effective_decision, "waiting");
}

#[test]
fn execution_floor_waits_for_a_best_ask_and_blocks_below_floor() {
    let no_ask = evaluate_trade_builder_buy_guards(&BuyGuardInputs { best_ask: None, best_ask_floor_price: Some(500_000), ..inputs() });
    assert_eq!(no_ask.execution_floor_reason, Some("best_ask_unavailable"));
    assert_eq!(no_ask.effective_decision, "waiting");
    assert_eq!(no_ask.trigger_guard_reference_source, "current_price_fallback");
    let below = evaluate_trade_builder_buy_guards(&BuyGuardInputs { best_ask_floor_price: Some(600_000), ..inputs() });
    assert_eq!(below.effective_reason_code, "below_best_ask_floor");
    assert_eq!(below.effective_decision, "blocked");
}

#[test]
fn max_price_checks_best_ask_or_desired_price() {
    let blocked = evaluate_trade_builder_buy_guards(&BuyGuardInputs { max_price: Some(555_000), ..inputs() });
    assert!(blocked.max_price_blocked);
    assert_eq!(blocked.effective_reason_code, "above_max_price");
    let fallback = evaluate_trade_builder_buy_guards(&BuyGuardInputs { best_ask: Some(1_500_000), max_price: Some(565_000), ..inputs() });
    assert_eq!(fallback.max_price_reference, 570_000);
    assert_eq!(fallback.max_price_reference_source, "desired_price_fallback");
    assert_eq!(fallback.effective_decision, "blocked");
}

#[test]
fn pair_lock_legs_wait_for_a_best_ask_first() {
    let counter = evaluate_trade_builder_buy_guards(&BuyGuardInputs {
        best_ask: None,
        pair_leg_role: Some("counter_candidate"),
        guard_trigger_price: Some(900_000),
        ..inputs()
    });
    assert_eq!(counter.pair_lock_market_waiting_reason, Some("pair_counter_best_ask_unavailable"));
    assert_eq!(counter.effective_decision, "waiting");
    assert_eq!(counter.effective_reason_code, "pair_counter_best_ask_unavailable");
    assert!(counter.trigger_price_guard_blocked);
}

#[test]
fn probability_clamp() {
    assert_eq!(clamp_probability(-1), 0);
    assert_eq!(clamp_probability(1_000_001), 1_000_000);
    assert_eq!(clamp_probability(420_000), 420_000);
}

#[test]
fn decision_volume_regime_uses_forensic_thresholds() {
    assert_eq!(decision_volume_regime(Some(1_490_000)), "normal");
    assert_eq!(decision_volume_regime(Some(1_500_000)), "elevated");
    assert_eq!(decision_volume_regime(Some(2_500_000)), "high");
    assert_eq!(decision_volume_regime(Some(4_000_000)), "extreme");
    assert_eq!(decision_volume_regime(None), "unknown");
}

#[test]
fn risk_tag_thresholds_are_recorded() {
    let p = risk_tag_thresholds_payload();
    assert_eq!(member(&p, "late_entry_elapsed_s"), Some(&JsonValue::Int(210)));
    assert_eq!(member(&p, "gap_collapsing_threshold"), Some(&JsonValue::Float("-2.0".to_string())));
}
