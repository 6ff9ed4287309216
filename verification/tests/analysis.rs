use bot_runner::analysis::{
    trade_builder_analysis_extract_exchange_order_ids, trade_builder_analysis_market_end_at_from_slug,
    trade_builder_analysis_market_has_ended, trade_builder_analysis_market_has_ended_at,
    trade_builder_analysis_market_open_at_from_slug, trade_builder_analysis_select_trigger_event,
    TradeBuilderOrderEventRecord, TradeFlowEventRecord,
};
use bot_runner::config_diff::{diff_json, json_equal};
use bot_runner::decision_ids::{config_version_for_timestamp, generate_config_version};
use bot_runner::flow::{TradeFlowEdge, TradeFlowGraphRuntime, TradeFlowNode};
use bot_runner::graph::trade_builder_analysis_has_upstream_auto_scope_trigger;
use bot_runner::json::JsonValue;

fn to_doc(v: &serde_json::Value) -> JsonValue {
    match v {
        serde_json::Value::Null => JsonValue::Null,
        serde_json::Value::Bool(b) => JsonValue::Bool(*b),
        serde_json::Value::Number(n) => {
            if let Some(i) = n.as_i64() {
                JsonValue::Int(i)
            } else if let Some(u) = n.as_u64() {
                JsonValue::UInt(u)
            } else {
                JsonValue::Float(n.to_string())
            }
        }
        serde_json::Value::String(s) => JsonValue::Str(s.clone()),
        serde_json::Value::Array(items) => JsonValue::Array(items.iter().map(to_doc).collect()),
        serde_json::Value::Object(members) => {
            JsonValue::Object(members.iter().map(|(k, v)| (k.clone(), to_doc(v))).collect())
        }
    }
}

fn doc(text: &str) -> JsonValue {
    let v: serde_json::Value = serde_json::from_str(text).expect("valid json");
    to_doc(&v)
}

fn text_of<'a>(v: &'a JsonValue, key: &str) -> Option<&'a str> {
    match v {
        JsonValue::Object(members) => members.iter().find(|(k, _)| k == key).and_then(|(_, v)| match v {
            JsonValue::Str(s) => Some(s.as_str()),
            _ => None,
        }),
        _ => None,
    }
}

fn member<'a>(v: &'a JsonValue, key: &str) -> Option<&'a JsonValue> {
    match v {
        JsonValue::Object(members) => members.iter().find(|(k, _)| k == key).map(|(_, v)| v),
        _ => None,
    }
}

fn flow_node(key: &str, node_type: &str, config: &str) -> TradeFlowNode {
    TradeFlowNode { key: key.to_string(), node_type: node_type.to_string(), config: doc(config) }
}

fn edge(source: &str, target: &str) -> TradeFlowEdge {
    TradeFlowEdge { source: source.to_string(), target: target.to_string(), edge_type: "default".to_string(), condition: None }
}

#[test]
fn market_has_ended_uses_slug_window_duration() {
    let future_open = chrono::Utc::now() + chrono::Duration::hours(1);
    let future_slug = format!("btc-updown-5m-{}", future_open.timestamp());
    assert!(trade_builder_analysis_market_has_ended("btc-updown-5m-1772296200"));
    assert!(!trade_builder_analysis_market_has_ended(&future_slug));
}

#[test]
fn market_window_closes_five_or_fifteen_minutes_after_opening() {
    let open = 1_772_296_200_i64 * 1_000_000;
    assert_eq!(trade_builder_analysis_market_end_at_from_slug("btc-updown-5m-1772296200"), Some(open + 300_000_000));
    assert_eq!(trade_builder_analysis_market_end_at_from_slug("btc-updown-15m-1772296200"), Some(open + 900_000_000));
    assert!(!trade_builder_analysis_market_has_ended_at("btc-updown-5m-1772296200", open + 299_999_999));
    assert!(trade_builder_analysis_market_has_ended_at("btc-updown-5m-1772296200", open + 300_000_000));
    assert!(!trade_builder_analysis_market_has_ended_at("no-epoch-here", i64::MAX));
}

#[test]
fn market_open_at_uses_slug_suffix_timestamp() {
    let parsed = trade_builder_analysis_market_open_at_from_slug("btc-updown-5m-1772296200").expect("timestamp should parse");
    let at = chrono::DateTime::<chrono::Utc>::from_timestamp_micros(parsed).expect("instant");
    assert_eq!(at.to_rfc3339(), "2026-02-28T16:30:00+00:00");
}

#[test]
fn market_open_at_reads_millisecond_suffix() {
    let parsed = trade_builder_analysis_market_open_at_from_slug("btc-updown-5m-1772296200123").expect("millis");
    assert_eq!(parsed, 1_772_296_200_123_000);
    assert_eq!(trade_builder_analysis_market_open_at_from_slug("btc-updown-5m-12345"), None);
}

#[test]
fn upstream_auto_scope_trigger_detected_through_edges() {
    let graph = TradeFlowGraphRuntime {
        context: doc("{}"),
        nodes: vec![
            flow_node("trigger_auto", "trigger.market_price", r#"{"marketMode": "auto_scope"}"#),
            flow_node("logic", "logic.if", "{}"),
            flow_node("action_buy", "action.place_order", "{}"),
        ],
        edges: vec![edge("trigger_auto", "logic"), edge("logic", "action_buy")],
    };
    assert!(trade_builder_analysis_has_upstream_auto_scope_trigger(&graph, "action_buy"));
}

#[test]
fn upstream_auto_scope_trigger_accepts_pair_lock_counter_node_key() {
    let graph = TradeFlowGraphRuntime {
        context: doc("{}"),
        nodes: vec![
            flow_node("trigger_auto", "trigger.market_price", r#"{"marketMode": "auto_scope"}"#),
            flow_node("action_buy", "action.place_order", "{}"),
        ],
        edges: vec![edge("trigger_auto", "action_buy")],
    };
    assert!(trade_builder_analysis_has_upstream_auto_scope_trigger(&graph, "action_buy__counter"));
}

#[test]
fn standard_trigger_upstream_is_not_auto_scope() {
    let graph = TradeFlowGraphRuntime {
        context: doc("{}"),
        nodes: vec![
            flow_node("trigger_std", "trigger.market_price", "{}"),
            flow_node("action_buy", "action.place_order", "{}"),
        ],
        edges: vec![edge("trigger_std", "action_buy"), edge("action_buy", "trigger_std")],
    };
    assert!(!trade_builder_analysis_has_upstream_auto_scope_trigger(&graph, "action_buy"));
}

fn flow_event(id: i64, event_type: &str, payload: &str, created_at: i64) -> TradeFlowEventRecord {
    TradeFlowEventRecord { id, event_type: event_type.to_string(), payload_json: doc(payload), created_at }
}

#[test]
fn selected_trigger_is_latest_candidate_before_buy() {
    let events = vec![
        flow_event(1, "trigger_fired", r#"{"market_slug": "m", "token_id": "t"}"#, 100),
        flow_event(2, "trigger_fired", r#"{"market_slug": "m", "token_id": "t", "window_open_at": "2026-02-28T16:30:00Z"}"#, 200),
        flow_event(3, "trigger_fired", r#"{"market_slug": "m", "token_id": "t"}"#, 900),
        flow_event(4, "trigger_fired", r#"{"market_slug": "other", "token_id": "t"}"#, 300),
    ];
    let selected = trade_builder_analysis_select_trigger_event(&events, "m", "t", 500).expect("selected");
    assert_eq!(selected.created_at, 200);
    assert_eq!(selected.market_open_at, Some(1_772_296_200_000_000));
    assert!(trade_builder_analysis_select_trigger_event(&events, "m", "t", 50).is_none());
}

#[test]
fn exchange_order_ids_are_collected_once_each() {
    let events = vec![
        TradeBuilderOrderEventRecord { id: 1, order_id: 9, event_type: "submitted".to_string(), payload_json: doc(r#"{"exchange_order_id": "0xa"}"#), created_at: 1 },
        TradeBuilderOrderEventRecord { id: 2, order_id: 9, event_type: "filled".to_string(), payload_json: doc(r#"{"exchange_order_id": "0xa"}"#), created_at: 2 },
        TradeBuilderOrderEventRecord { id: 3, order_id: 9, event_type: "submitted".to_string(), payload_json: doc(r#"{"exchange_order_id": "0xb"}"#), created_at: 3 },
    ];
    let mut ids = trade_builder_analysis_extract_exchange_order_ids(&events);
    ids.sort();
    assert_eq!(ids, vec!["0xa".to_string(), "0xb".to_string()]);
}

#[test]
fn generate_config_version_starts_with_v() {
    let version = generate_config_version();
    assert!(version.starts_with("v"));
}

#[test]
fn config_version_is_v_and_the_second() {
    assert_eq!(config_version_for_timestamp(1_772_296_200), "v1772296200");
    assert_eq!(config_version_for_timestamp(-5), "v-5");
}

#[test]
fn diff_json_detects_value_change() {
    let old = doc(r#"{"maxPrice": 0.87, "slEnabled": true}"#);
    let new = doc(r#"{"maxPrice": 0.90, "slEnabled": true}"#);
    let diff = diff_json(&old, &new);
    assert!(member(&diff, "maxPrice").is_some());
    assert!(member(&diff, "slEnabled").is_none());
    let entry = member(&diff, "maxPrice").unwrap();
    assert!(json_equal(member(entry, "old").unwrap(), &doc("0.87")));
    assert!(json_equal(member(entry, "new").unwrap(), &doc("0.90")));
}

#[test]
fn diff_json_detects_added_key() {
    let old = doc(r#"{"maxPrice": 0.87}"#);
    let new = doc(r#"{"maxPrice": 0.87, "slEnabled": false}"#);
    let diff = diff_json(&old, &new);
    let entry = member(&diff, "slEnabled").unwrap();
    assert_eq!(text_of(entry, "change"), Some("added"));
    assert!(json_equal(member(entry, "new").unwrap(), &JsonValue::Bool(false)));
}

#[test]
fn diff_json_detects_removed_key() {
    let old = doc(r#"{"maxPrice": 0.87, "slEnabled": true}"#);
    let new = doc(r#"{"maxPrice": 0.87}"#);
    let diff = diff_json(&old, &new);
    assert_eq!(text_of(member(&diff, "slEnabled").unwrap(), "change"), Some("removed"));
}

#[test]
fn diff_json_empty_when_same() {
    let val = doc(r#"{"maxPrice": 0.87}"#);
    let diff = diff_json(&val, &val);
    assert!(json_equal(&diff, &JsonValue::Object(Vec::new())));
}

#[test]
fn diff_json_of_non_objects() {
    assert!(json_equal(&diff_json(&doc("1"), &doc("1")), &JsonValue::Object(Vec::new())));
    let d = diff_json(&doc("1"), &doc("[1]"));
    assert!(json_equal(member(&d, "old").unwrap(), &doc("1")));
    assert!(json_equal(member(&d, "new").unwrap(), &doc("[1]")));
    assert!(json_equal(&JsonValue::Int(5), &JsonValue::UInt(5)));
    assert!(!json_equal(&doc("1"), &doc("1.0")));
}
