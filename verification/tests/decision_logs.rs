use bot_runner::analysis::{
    trade_builder_analysis_event_number, trade_builder_analysis_event_number_nested,
    trade_builder_analysis_nested_payload_number, trade_builder_analysis_payload_number,
    trade_builder_analysis_thin_liquidity_signal, TradeBuilderOrderEventRecord,
};
use bot_runner::decision_log_fields::{
    build_shadow_volume_guard_payload, risk_tag_values_from_entry_payload, risk_tags_from_entry_payload,
};
use bot_runner::json::JsonValue;
use bot_runner::json_number::{json_micros, number_micros, text_micros};

fn to_doc(v: &serde_json::Value) -> JsonValue {
    match v {
        serde_json::Value::Null => JsonValue::Null,
        serde_json::Value::Bool(b) => JsonValue::Bool(*b),
        serde_json::Value::Number(n) => {
            if let Some(i) = n.as_i64() {
                JsonValue::Int(i)
            } else if let Some(u) = n.as_u64() {
                JsonValue::UInt(u)
            } else {
                JsonValue::Float(n.to_string())
            }
        }
        serde_json::Value::String(s) => JsonValue::Str(s.clone()),
        serde_json::Value::Array(items) => JsonValue::Array(items.iter().map(to_doc).collect()),
        serde_json::Value::Object(members) => {
            JsonValue::Object(members.iter().map(|(k, v)| (k.clone(), to_doc(v))).collect())
        }
    }
}

fn doc(text: &str) -> JsonValue {
    let v: serde_json::Value = serde_json::from_str(text).expect("valid json");
    to_doc(&v)
}

fn member<'a>(v: &'a JsonValue, key: &str) -> Option<&'a JsonValue> {
    match v {
        JsonValue::Object(members) => members.iter().find(|(k, _)| k == key).map(|(_, v)| v),
        _ => None,
    }
}

fn event(event_type: &str, payload: JsonValue) -> TradeBuilderOrderEventRecord {
    TradeBuilderOrderEventRecord { id: 1, order_id: 1, event_type: event_type.to_string(), payload_json: payload, created_at: 0 }
}

#[test]
fn entry_risk_tags_capture_late_high_volume_collapse() {
    let ptb = doc(r#"{"slope_5s": -6.8, "trend": "collapsing", "drawdown_from_peak": 9.2}"#);
    let volume = doc(r#"{"polymarket": {"regime": "high"}}"#);
    let market = doc(r#"{"market_elapsed_s": 228, "remaining_s": 72}"#);
    let shadow = doc(r#"{"would_block": true}"#);
    let tags = risk_tags_from_entry_payload(820_000, &ptb, &volume, &market, &shadow);
    assert!(tags.contains(&"late_entry"));
    assert!(tags.contains(&"high_price"));
    assert!(tags.contains(&"high_volume"));
    assert!(tags.contains(&"gap_slope_negative"));
    assert!(tags.contains(&"gap_collapsing"));
    assert!(tags.contains(&"gap_peak_drawdown_high"));
    assert!(tags.contains(&"shadow_volume_guard_block"));
}

#[test]
fn entry_risk_tags_in_order_and_exclusive() {
    let ptb = doc(r#"{"slope_5s": 0.5, "trend": "flat", "drawdown_from_peak": 5.999999}"#);
    let volume = doc(r#"{"polymarket": {"regime": "extreme"}}"#);
    let market = doc(r#"{"market_elapsed_s": 100, "remaining_s": 60}"#);
    let shadow = doc(r#"{"would_block": false}"#);
    let tags = risk_tags_from_entry_payload(850_000, &ptb, &volume, &market, &shadow);
    assert_eq!(tags, vec!["last_60s", "very_high_price", "extreme_volume"]);
    let none = risk_tags_from_entry_payload(749_999, &doc("{}"), &doc("{}"), &doc("{}"), &doc("{}"));
    assert!(none.is_empty());
    let slope_as_text = doc(r#"{"slope_5s": "-1"}"#);
    let tags = risk_tags_from_entry_payload(0, &slope_as_text, &doc("{}"), &doc("{}"), &doc("{}"));
    assert!(tags.is_empty());
}

#[test]
fn risk_tag_values_record_actuals_beside_thresholds() {
    let ptb = doc(r#"{"slope_5s": -6.8}"#);
    let market = doc(r#"{"market_elapsed_s": 228}"#);
    let values = risk_tag_values_from_entry_payload(820_000, &ptb, &market);
    let high = member(&values, "high_price").expect("high_price");
    assert_eq!(member(high, "actual"), Some(&JsonValue::Float("0.820000".to_string())));
    assert_eq!(member(high, "threshold"), Some(&JsonValue::Float("0.75".to_string())));
    let collapsing = member(&values, "gap_collapsing").expect("gap_collapsing");
    assert_eq!(member(collapsing, "actual"), Some(&JsonValue::Float("-6.8".to_string())));
    let late = member(&values, "late_entry").expect("late_entry");
    assert_eq!(member(late, "actual_elapsed_s"), Some(&JsonValue::Int(228)));
    assert_eq!(member(late, "threshold_s"), Some(&JsonValue::Int(210)));
    let empty = risk_tag_values_from_entry_payload(0, &doc("{}"), &doc("{}"));
    let slope = member(&empty, "gap_slope_negative").expect("gap_slope_negative");
    assert_eq!(member(slope, "actual"), Some(&JsonValue::Null));
}

#[test]
fn shadow_volume_guard_blocks_high_volume_collapse_only() {
    let collapsing = doc(r#"{"slope_5s": -2.5}"#);
    let high = doc(r#"{"polymarket": {"regime": "high"}}"#);
    let p = build_shadow_volume_guard_payload(&collapsing, &high);
    assert_eq!(member(&p, "evaluated"), Some(&JsonValue::Bool(true)));
    assert_eq!(member(&p, "would_block"), Some(&JsonValue::Bool(true)));
    assert_eq!(member(&p, "reason"), Some(&JsonValue::Str("high_volume_gap_collapsing".to_string())));
    let at_limit = doc(r#"{"slope_5s": -2.0}"#);
    let p = build_shadow_volume_guard_payload(&at_limit, &high);
    assert_eq!(member(&p, "would_block"), Some(&JsonValue::Bool(false)));
    assert_eq!(member(&p, "reason"), Some(&JsonValue::Str("not_high_volume_gap_collapsing".to_string())));
    let just_below = doc(r#"{"slope_5s": -2.0000001}"#);
    let p = build_shadow_volume_guard_payload(&just_below, &high);
    assert_eq!(member(&p, "would_block"), Some(&JsonValue::Bool(true)));
    let normal = doc(r#"{"polymarket": {"regime": "normal"}}"#);
    let p = build_shadow_volume_guard_payload(&collapsing, &normal);
    assert_eq!(member(&p, "would_block"), Some(&JsonValue::Bool(false)));
    let extreme = doc(r#"{"polymarket": {"regime": "extreme"}}"#);
    let p = build_shadow_volume_guard_payload(&collapsing, &extreme);
    assert_eq!(member(&p, "would_block"), Some(&JsonValue::Bool(true)));
}

#[test]
fn number_texts_read_as_millionths_rounded_down() {
    assert_eq!(text_micros("0.82"), Some(820_000));
    assert_eq!(text_micros("-6.8"), Some(-6_800_000));
    assert_eq!(text_micros("+1.5"), Some(1_500_000));
    assert_eq!(text_micros(".5"), Some(500_000));
    assert_eq!(text_micros("5."), Some(5_000_000));
    assert_eq!(text_micros("1e2"), Some(100_000_000));
    assert_eq!(text_micros("2.5E-3"), Some(2_500));
    assert_eq!(text_micros("1e-7"), Some(0));
    assert_eq!(text_micros("-1e-7"), Some(-1));
    assert_eq!(text_micros("0.0000019"), Some(1));
    assert_eq!(text_micros("-0.0000019"), Some(-2));
    assert_eq!(text_micros("9223372036854.775807"), Some(i64::MAX));
    assert_eq!(text_micros("9223372036854.775808"), None);
    assert_eq!(text_micros(""), None);
    assert_eq!(text_micros("-"), None);
    assert_eq!(text_micros("."), None);
    assert_eq!(text_micros("12abc"), None);
    assert_eq!(text_micros("1e"), None);
    assert_eq!(text_micros("1e100"), None);
    assert_eq!(text_micros(" 1"), None);
}

#[test]
fn json_numbers_and_number_texts() {
    assert_eq!(number_micros(&JsonValue::Int(3)), Some(3_000_000));
    assert_eq!(number_micros(&JsonValue::Int(-3)), Some(-3_000_000));
    assert_eq!(number_micros(&JsonValue::UInt(u64::MAX)), None);
    assert_eq!(number_micros(&JsonValue::Float("0.25".to_string())), Some(250_000));
    assert_eq!(number_micros(&JsonValue::Str("0.25".to_string())), None);
    assert_eq!(json_micros(&JsonValue::Str("0.25".to_string())), Some(250_000));
    assert_eq!(json_micros(&JsonValue::Str("abc".to_string())), None);
    assert_eq!(json_micros(&JsonValue::Bool(true)), None);
    assert_eq!(json_micros(&JsonValue::Null), None);
}

#[test]
fn payload_numbers_take_the_first_key_that_reads() {
    let p = doc(r#"{"a": "x", "b": "1.25", "c": 7, "nested": {"inner": {"v": 0.5}}}"#);
    assert_eq!(trade_builder_analysis_payload_number(&p, &["a", "b", "c"]), Some(1_250_000));
    assert_eq!(trade_builder_analysis_payload_number(&p, &["missing", "c"]), Some(7_000_000));
    assert_eq!(trade_builder_analysis_payload_number(&p, &["a"]), None);
    assert_eq!(trade_builder_analysis_nested_payload_number(&p, &["nested", "inner", "v"]), Some(500_000));
    assert_eq!(trade_builder_analysis_nested_payload_number(&p, &["nested", "missing", "v"]), None);
    assert_eq!(trade_builder_analysis_nested_payload_number(&JsonValue::Int(2), &[]), Some(2_000_000));
    let e = event("submitted", p);
    assert_eq!(trade_builder_analysis_event_number(Some(&e), &["c"]), Some(7_000_000));
    assert_eq!(trade_builder_analysis_event_number(None, &["c"]), None);
    assert_eq!(trade_builder_analysis_event_number_nested(Some(&e), &["nested", "inner", "v"]), Some(500_000));
    assert_eq!(trade_builder_analysis_event_number_nested(None, &["nested"]), None);
}

#[test]
fn thin_liquidity_from_retries_depth_or_visible_quantity() {
    let plain = event("submitted", doc(r#"{"submit_price_requested_qty": 10, "visible_qty": 8}"#));
    assert!(!trade_builder_analysis_thin_liquidity_signal(&[], Some(&plain)));
    let thin = event("submitted", doc(r#"{"requested_qty": 10, "submit_price_visible_ask_qty": 7.4}"#));
    assert!(trade_builder_analysis_thin_liquidity_signal(&[], Some(&thin)));
    let three_quarters = event("submitted", doc(r#"{"size": "10", "visible_qty": "7.5"}"#));
    assert!(!trade_builder_analysis_thin_liquidity_signal(&[], Some(&three_quarters)));
    let deep = event("submitted", doc(r#"{"depth_levels_used": 2}"#));
    assert!(trade_builder_analysis_thin_liquidity_signal(&[], Some(&deep)));
    let one_level = event("submitted", doc(r#"{"submit_price_depth_levels_used": 1}"#));
    assert!(!trade_builder_analysis_thin_liquidity_signal(&[], Some(&one_level)));
    let retry = event("submit_retry_scheduled", doc("{}"));
    assert!(trade_builder_analysis_thin_liquidity_signal(&[plain, retry], None));
    assert!(!trade_builder_analysis_thin_liquidity_signal(&[], None));
    let zero_requested = event("submitted", doc(r#"{"requested_qty": 0, "visible_qty": 0}"#));
    assert!(!trade_builder_analysis_thin_liquidity_signal(&[], Some(&zero_requested)));
}
