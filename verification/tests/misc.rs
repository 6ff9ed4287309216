use bot_runner::analysis::trade_builder_analysis_market_open_at_from_slug;
use bot_runner::buy_fill_lock::{clear_trade_flow_buy_fill_lock, find_trade_flow_buy_fill_lock, find_trade_flow_buy_fill_lock_for_market};
use bot_runner::dca_live::{dca_live_outside_binding_window, dca_live_outside_binding_window_at, dca_live_parse_context_time};
use bot_runner::fill_sync::{trade_builder_cursor_has_next, TradeBuilderFillPageSyncResult};
use bot_runner::buy_guards::trade_builder_guard_diagnostic_payload;
use bot_runner::flow::{TradeFlowGraphRuntime, TradeFlowNode};
use bot_runner::json::JsonValue;
use bot_runner::strategy_nodes::{
    avg_rebound_binding_trigger_key, avg_rebound_token_resolution_for_side, confidence_ladder_binding_trigger_key,
    confidence_ladder_elapsed_sec_from_remaining, BindingTriggerError, PairLockResolvedTokenPair,
};
use bot_runner::time::{CHRONO_MAX_TIMESTAMP_SECS, CHRONO_MIN_TIMESTAMP_SECS};

fn to_doc(v: &serde_json::Value) -> JsonValue {
    match v {
        serde_json::Value::Null => JsonValue::Null,
        serde_json::Value::Bool(b) => JsonValue::Bool(*b),
        serde_json::Value::Number(n) => {
            if let Some(i) = n.as_i64() {
                JsonValue::Int(i)
            } else if let Some(u) = n.as_u64() {
                JsonValue::UInt(u)
            } else {
                JsonValue::Float(n.to_string())
            }
        }
        serde_json::Value::String(s) => JsonValue::Str(s.clone()),
        serde_json::Value::Array(items) => JsonValue::Array(items.iter().map(to_doc).collect()),
        serde_json::Value::Object(members) => {
            JsonValue::Object(members.iter().map(|(k, v)| (k.clone(), to_doc(v))).collect())
        }
    }
}

fn doc(text: &str) -> JsonValue {
    let v: serde_json::Value = serde_json::from_str(text).expect("valid json");
    to_doc(&v)
}

fn text_of<'a>(v: &'a JsonValue, key: &str) -> Option<&'a str> {
    match v {
        JsonValue::Object(members) => members.iter().find(|(k, _)| k == key).and_then(|(_, v)| match v {
            JsonValue::Str(s) => Some(s.as_str()),
            _ => None,
        }),
        _ => None,
    }
}

fn member<'a>(v: &'a JsonValue, key: &str) -> Option<&'a JsonValue> {
    match v {
        JsonValue::Object(members) => members.iter().find(|(k, _)| k == key).map(|(_, v)| v),
        _ => None,
    }
}

#[test]
fn chrono_range_bounds_match_the_library() {
    assert!(chrono::DateTime::<chrono::Utc>::from_timestamp(CHRONO_MAX_TIMESTAMP_SECS, 0).is_some());
    assert!(chrono::DateTime::<chrono::Utc>::from_timestamp(CHRONO_MAX_TIMESTAMP_SECS + 1, 0).is_none());
    assert!(chrono::DateTime::<chrono::Utc>::from_timestamp(CHRONO_MIN_TIMESTAMP_SECS, 0).is_some());
    assert!(chrono::DateTime::<chrono::Utc>::from_timestamp(CHRONO_MIN_TIMESTAMP_SECS - 1, 0).is_none());
    assert!(chrono::DateTime::<chrono::Utc>::from_timestamp_millis(CHRONO_MAX_TIMESTAMP_SECS * 1000 + 999).is_some());
    assert!(chrono::DateTime::<chrono::Utc>::from_timestamp_millis(CHRONO_MAX_TIMESTAMP_SECS * 1000 + 1000).is_none());
    assert!(chrono::DateTime::<chrono::Utc>::from_timestamp_millis(CHRONO_MIN_TIMESTAMP_SECS * 1000).is_some());
    assert!(chrono::DateTime::<chrono::Utc>::from_timestamp_millis(CHRONO_MIN_TIMESTAMP_SECS * 1000 - 1).is_none());
    assert!(chrono::DateTime::<chrono::Utc>::from_timestamp_micros(CHRONO_MAX_TIMESTAMP_SECS * 1_000_000 + 999_999).is_some());
    assert!(chrono::DateTime::<chrono::Utc>::from_timestamp_micros(CHRONO_MIN_TIMESTAMP_SECS * 1_000_000).is_some());
    assert_eq!(trade_builder_analysis_market_open_at_from_slug("btc-updown-5m-1000000000"), Some(1_000_000_000_000_000));
}

fn lock_context() -> JsonValue {
    doc(r#"{"flowContext": {"__buyFillLocks": {
        "g1": {"marketSlug": "btc-updown-5m-1", "builderOrderId": 5, "sourceNodeKey": "buy", "filledAt": "2026-02-28T16:30:00Z", "releaseOnStopLoss": true},
        "g2": {"marketSlug": "eth-updown-5m-1", "builderOrderId": 6, "sourceNodeKey": "buy2", "filledAt": "2026-02-28T16:31:00Z", "releaseOnStopLoss": false}
    }, "other": 1}}"#)
}

#[test]
fn cleared_lock_is_gone_and_other_locks_stay() {
    let mut context = lock_context();
    assert!(find_trade_flow_buy_fill_lock(&context, "g1").is_some());
    assert!(find_trade_flow_buy_fill_lock_for_market(&context, "g1", "btc-updown-5m-1").is_some());
    assert!(find_trade_flow_buy_fill_lock_for_market(&context, "g1", "eth-updown-5m-1").is_none());
    assert!(clear_trade_flow_buy_fill_lock(&mut context, "g1"));
    assert!(find_trade_flow_buy_fill_lock(&context, "g1").is_none());
    let g2 = find_trade_flow_buy_fill_lock(&context, "g2").expect("g2 stays");
    assert_eq!(g2.builder_order_id, 6);
    assert!(!clear_trade_flow_buy_fill_lock(&mut context, "g1"));
    assert!(clear_trade_flow_buy_fill_lock(&mut context, "g2"));
    let fc = member(&context, "flowContext").expect("flow context");
    assert!(member(fc, "__buyFillLocks").is_none());
    assert!(member(fc, "other").is_some());
}

#[test]
fn page_sync_totals_merge_and_saturate() {
    let mut a = TradeBuilderFillPageSyncResult { synced_count: 2, pages_scanned: 1, raw_count: usize::MAX - 1, first_row_keys: Vec::new(), next_cursor_present: false };
    let b = TradeBuilderFillPageSyncResult { synced_count: 3, pages_scanned: 2, raw_count: 5, first_row_keys: vec!["id".to_string()], next_cursor_present: true };
    a.merge(b);
    assert_eq!(a.synced_count, 5);
    assert_eq!(a.pages_scanned, 3);
    assert_eq!(a.raw_count, usize::MAX);
    assert!(a.next_cursor_present);
    assert_eq!(a.first_row_keys, vec!["id".to_string()]);
    let c = TradeBuilderFillPageSyncResult { synced_count: 0, pages_scanned: 0, raw_count: 0, first_row_keys: vec!["other".to_string()], next_cursor_present: false };
    a.merge(c);
    assert_eq!(a.first_row_keys, vec!["id".to_string()]);
}

#[test]
fn cursor_has_next_only_for_a_new_real_cursor() {
    assert!(trade_builder_cursor_has_next(Some(" MTAw "), "MA=="));
    assert!(!trade_builder_cursor_has_next(Some("LTE="), "MA=="));
    assert!(!trade_builder_cursor_has_next(Some("END"), "MA=="));
    assert!(!trade_builder_cursor_has_next(Some("end"), "MA=="));
    assert!(!trade_builder_cursor_has_next(Some("   "), "MA=="));
    assert!(!trade_builder_cursor_has_next(None, "MA=="));
    assert!(!trade_builder_cursor_has_next(Some("MA=="), "MA=="));
}

#[test]
fn guard_diagnostic_payload_records_decision() {
    let p = trade_builder_guard_diagnostic_payload(true, "blocked", "max_price", doc(r#"{"limit": 1}"#));
    assert_eq!(member(&p, "configured"), Some(&JsonValue::Bool(true)));
    assert_eq!(text_of(&p, "decision"), Some("blocked"));
    assert_eq!(text_of(&p, "reason_code"), Some("max_price"));
    assert_eq!(member(member(&p, "details").unwrap(), "limit"), Some(&JsonValue::Int(1)));
}

fn window_context(mode: &str) -> JsonValue {
    doc(&format!(
        r#"{{"flowContext": {{"cycleWindowMode": "{mode}", "cycleWindowOpenAt": "2026-02-28T16:30:00Z", "cycleWindowEndAt": "2026-02-28T17:30:00+00:00"}}}}"#
    ))
}

#[test]
fn dca_window_blocks_outside_custom_range() {
    let open = 1_772_296_200_000_000_i64;
    let context = window_context(" Custom_Range ");
    assert_eq!(dca_live_parse_context_time(&context, "cycleWindowOpenAt"), Some(open));
    assert!(dca_live_outside_binding_window_at(&context, open).is_none());
    assert!(dca_live_outside_binding_window_at(&context, open + 3_599_999_999).is_none());
    let blocked = dca_live_outside_binding_window_at(&context, open + 3_600_000_000).expect("blocked");
    assert_eq!(text_of(&blocked, "reason"), Some("outside_dca_binding_window"));
    assert_eq!(text_of(&blocked, "cycle_window_mode"), Some(" Custom_Range "));
    assert_eq!(text_of(&blocked, "cycle_window_open_at"), Some("2026-02-28T16:30:00+00:00"));
    assert_eq!(text_of(&blocked, "evaluated_at"), Some("2026-02-28T17:30:00+00:00"));
    assert!(dca_live_outside_binding_window_at(&context, open - 1).is_some());
    assert!(dca_live_outside_binding_window_at(&window_context("rolling"), open - 1).is_none());
    assert!(dca_live_outside_binding_window(&window_context("rolling")).is_none());
}

fn graph_with_trigger(binding_mode: &str) -> TradeFlowGraphRuntime {
    TradeFlowGraphRuntime {
        context: doc("{}"),
        nodes: vec![TradeFlowNode {
            key: "trigger".to_string(),
            node_type: "trigger.market_price".to_string(),
            config: doc(&format!(r#"{{"bindingMode": "{binding_mode}"}}"#)),
        }],
        edges: Vec::new(),
    }
}

#[test]
fn binding_trigger_key_checks_binding_mode() {
    let graph = graph_with_trigger(" Confidence_Ladder_Only ");
    assert_eq!(confidence_ladder_binding_trigger_key(&graph, Some("trigger".to_string())), Ok("trigger".to_string()));
    assert_eq!(avg_rebound_binding_trigger_key(&graph, Some("trigger".to_string())), Err(BindingTriggerError::WrongBindingMode));
    assert_eq!(confidence_ladder_binding_trigger_key(&graph, None), Err(BindingTriggerError::MissingUpstreamTrigger));
    assert_eq!(confidence_ladder_binding_trigger_key(&graph, Some("missing".to_string())), Err(BindingTriggerError::TriggerNodeNotFound));
    let rescue = graph_with_trigger("avg_rebound_pairlock_rescue_only");
    assert_eq!(avg_rebound_binding_trigger_key(&rescue, Some("trigger".to_string())), Ok("trigger".to_string()));
}

#[test]
fn token_resolution_follows_primary_side() {
    let pair = PairLockResolvedTokenPair { yes_token_id: "up-token".to_string(), no_token_id: "down-token".to_string() };
    let no = avg_rebound_token_resolution_for_side(&pair, "btc-updown-5m-1", "no");
    assert_eq!(no.primary_token_id, "down-token");
    assert_eq!(no.primary_outcome_label, "Down");
    assert_eq!(no.opposite_token_id, "up-token");
    assert_eq!(no.opposite_outcome_label, "Up");
    let yes = avg_rebound_token_resolution_for_side(&pair, "will-it-rain", "yes");
    assert_eq!(yes.primary_token_id, "up-token");
    assert_eq!(yes.primary_outcome_label, "Yes");
    assert_eq!(yes.opposite_outcome_label, "No");
}

#[test]
fn elapsed_seconds_clamp_to_the_window() {
    assert_eq!(confidence_ladder_elapsed_sec_from_remaining(Some(120)), Some(180));
    assert_eq!(confidence_ladder_elapsed_sec_from_remaining(Some(-5)), Some(300));
    assert_eq!(confidence_ladder_elapsed_sec_from_remaining(Some(400)), Some(0));
    assert_eq!(confidence_ladder_elapsed_sec_from_remaining(Some(i64::MIN)), Some(300));
    assert_eq!(confidence_ladder_elapsed_sec_from_remaining(None), None);
}
