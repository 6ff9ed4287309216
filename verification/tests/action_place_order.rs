use bot_runner::action_place_order::{
    action_place_order_early_stale_side_enabled, action_place_order_is_revenge_flip_stop_loss_sell,
    action_place_order_should_inline_submit, build_action_place_order_stale_market_skipped_execution,
    maybe_block_action_place_order_upstream_error, resolve_action_place_order_identity,
    resolve_action_place_order_initial_status, resolve_action_place_order_source_trade_id,
    resolve_early_stale_side_action_identity, ActionPlaceOrderIdentityError,
    ACTION_PLACE_ORDER_INTERNAL_BLOCKED_STATUS, ACTION_PLACE_ORDER_INTERNAL_INITIAL_STATUS_KEY,
    ACTION_PLACE_ORDER_INTERNAL_PAIR_LOCK_CHILD_ROLE_KEY, TRADE_BUILDER_PAIR_ROLE_COUNTER_CANDIDATE,
};
use bot_runner::flow::{TradeFlowNode, TradeFlowRunStep};
use bot_runner::json::JsonValue;

fn to_doc(v: &serde_json::Value) -> JsonValue {
    match v {
        serde_json::Value::Null => JsonValue::Null,
        serde_json::Value::Bool(b) => JsonValue::Bool(*b),
        serde_json::Value::Number(n) => {
            if let Some(i) = n.as_i64() {
                JsonValue::Int(i)
            } else if let Some(u) = n.as_u64() {
                JsonValue::UInt(u)
            } else {
                JsonValue::Float(n.to_string())
            }
        }
        serde_json::Value::String(s) => JsonValue::Str(s.clone()),
        serde_json::Value::Array(items) => JsonValue::Array(items.iter().map(to_doc).collect()),
        serde_json::Value::Object(members) => {
            JsonValue::Object(members.iter().map(|(k, v)| (k.clone(), to_doc(v))).collect())
        }
    }
}

fn doc(text: &str) -> JsonValue {
    let v: serde_json::Value = serde_json::from_str(text).expect("valid json");
    to_doc(&v)
}

fn text_of<'a>(v: &'a JsonValue, key: &str) -> Option<&'a str> {
    match v {
        JsonValue::Object(members) => members.iter().find(|(k, _)| k == key).and_then(|(_, v)| match v {
            JsonValue::Str(s) => Some(s.as_str()),
            _ => None,
        }),
        _ => None,
    }
}

fn node(config: JsonValue) -> TradeFlowNode {
    TradeFlowNode { key: "order".to_string(), node_type: "action.place_order".to_string(), config }
}

fn step(input: JsonValue) -> TradeFlowRunStep {
    TradeFlowRunStep {
        id: 1,
        run_id: 1,
        node_key: "order".to_string(),
        node_type: "action.place_order".to_string(),
        status: "pending".to_string(),
        attempt: 1,
        input_json: Some(input),
        output_json: None,
        error_text: None,
        started_at: None,
        ended_at: None,
        available_at: 0,
        parent_step_id: None,
        idempotency_key: None,
        created_at: 0,
    }
}

#[test]
fn defaults_to_pending_for_normal_buy_orders() {
    assert_eq!(resolve_action_place_order_initial_status(&node(doc("{}")), "buy", "immediate"), "pending");
}

#[test]
fn blocks_internal_pair_lock_counter_until_session_attach() {
    let config = JsonValue::Object(vec![
        (
            ACTION_PLACE_ORDER_INTERNAL_PAIR_LOCK_CHILD_ROLE_KEY.to_string(),
            JsonValue::Str(TRADE_BUILDER_PAIR_ROLE_COUNTER_CANDIDATE.to_string()),
        ),
        (
            ACTION_PLACE_ORDER_INTERNAL_INITIAL_STATUS_KEY.to_string(),
            JsonValue::Str(ACTION_PLACE_ORDER_INTERNAL_BLOCKED_STATUS.to_string()),
        ),
    ]);
    let node = node(config);
    let initial_status = resolve_action_place_order_initial_status(&node, "buy", "immediate");
    assert_eq!(initial_status, ACTION_PLACE_ORDER_INTERNAL_BLOCKED_STATUS);
    assert!(!action_place_order_should_inline_submit("immediate", initial_status));
}

#[test]
fn keeps_immediate_sell_orders_triggered() {
    assert_eq!(resolve_action_place_order_initial_status(&node(doc("{}")), "sell", "immediate"), "triggered");
}

#[test]
fn immediate_sell_stays_triggered_even_for_blocked_counter_config() {
    let config = doc(r#"{"internalPairLockChildRole": "counter_candidate", "internalInitialStatus": "blocked"}"#);
    assert_eq!(resolve_action_place_order_initial_status(&node(config), "sell", "immediate"), "triggered");
}

#[test]
fn detects_revenge_flip_stop_loss_sell_marker() {
    assert!(action_place_order_is_revenge_flip_stop_loss_sell(&node(doc(r#"{"revengeFlipStopLossSell": true}"#)), None));
    assert!(action_place_order_is_revenge_flip_stop_loss_sell(&node(doc("{}")), Some("revenge_flip_stop_loss_sell")));
    assert!(!action_place_order_is_revenge_flip_stop_loss_sell(&node(doc("{}")), None));
}

#[test]
fn revenge_flip_buy_ignores_stale_context_and_step_source_trade_id() {
    let node = node(doc(r#"{"revengeFlipOrder": true, "side": "buy", "sizeMode": "usdc"}"#));
    let context = doc(r#"{"flowContext": {"sourceTradeId": 108233}}"#);
    let step = step(doc(r#"{"sourceTradeId": 108233}"#));
    assert_eq!(resolve_action_place_order_source_trade_id(&node, &context, &step, "buy"), None);
}

#[test]
fn normal_sell_still_uses_context_source_trade_id() {
    let node = node(doc(r#"{"side": "sell"}"#));
    let context = doc(r#"{"flowContext": {"sourceTradeId": 42}}"#);
    let step = step(doc("{}"));
    assert_eq!(resolve_action_place_order_source_trade_id(&node, &context, &step, "sell"), Some(42));
}

#[test]
fn source_trade_id_falls_back_to_step_input_and_rejects_non_positive() {
    let node = node(doc(r#"{"side": "buy"}"#));
    let context = doc(r#"{"flowContext": {}}"#);
    assert_eq!(resolve_action_place_order_source_trade_id(&node, &context, &step(doc(r#"{"source_trade_id": 7}"#)), "buy"), Some(7));
    assert_eq!(resolve_action_place_order_source_trade_id(&node, &context, &step(doc(r#"{"sourceTradeId": 0}"#)), "buy"), None);
}

#[test]
fn stale_market_skipped_execution_preserves_skip_semantics() {
    let node = TradeFlowNode { key: "action_1".to_string(), node_type: "action.place_order".to_string(), config: doc("{}") };
    let execution = build_action_place_order_stale_market_skipped_execution(
        &node,
        "btc-updown-5m-old",
        "btc-updown-5m-new",
        Some("tok-up"),
        Some("Up"),
        "buy",
        "market",
    );
    assert_eq!(text_of(&execution.output, "reason"), Some("stale_market_retry_skipped"));
    assert_eq!(text_of(&execution.output, "stale_market_slug"), Some("btc-updown-5m-old"));
    assert_eq!(text_of(&execution.output, "market_slug"), Some("btc-updown-5m-new"));
    assert!(execution.repeat_at.is_none());
    assert!(execution.routes.is_empty());
}

#[test]
fn upstream_error_blocks_action_before_order_work() {
    let node = TradeFlowNode {
        key: "action_1".to_string(),
        node_type: "action.place_order".to_string(),
        config: doc(r#"{"side": "buy", "executionMode": "market"}"#),
    };
    let mut step = step(doc(
        r#"{"error": "trigger.market_price auto_scope unsupported marketScope=hype_5m_updown", "node_key": "trigger_hype_eq77_up", "node_type": "trigger.market_price"}"#,
    ));
    step.run_id = 42;
    step.parent_step_id = Some(99);
    let execution = maybe_block_action_place_order_upstream_error(&node, &step).expect("blocked");
    assert_eq!(text_of(&execution.output, "reason"), Some("upstream_trigger_error"));
    assert_eq!(text_of(&execution.output, "upstream_node_key"), Some("trigger_hype_eq77_up"));
    assert!(execution.routes.is_empty());
}

#[test]
fn blank_upstream_error_does_not_block() {
    let node = node(doc("{}"));
    assert!(maybe_block_action_place_order_upstream_error(&node, &step(doc(r#"{"error": "   "}"#))).is_none());
    assert!(maybe_block_action_place_order_upstream_error(&node, &step(doc("{}"))).is_none());
}

#[test]
fn early_stale_identity_follows_consensus_side() {
    let node = TradeFlowNode {
        key: "scout".to_string(),
        node_type: "action.place_order".to_string(),
        config: doc(r#"{"priceToBeatEarlyStaleSideEnabled": true}"#),
    };
    let context = doc(r#"{"flowContext": {"yesTokenId": "yes-token", "noTokenId": "no-token"}}"#);
    let up = resolve_early_stale_side_action_identity(&node, &context, "btc-updown-5m-1773319200", "buy", Some("up")).expect("identity");
    assert_eq!(up.token_id, "yes-token");
    assert_eq!(up.outcome_label, "Up");
    let down = resolve_early_stale_side_action_identity(&node, &context, "btc-updown-5m-1773319200", "buy", Some("down")).expect("identity");
    assert_eq!(down.token_id, "no-token");
    assert_eq!(down.outcome_label, "Down");
    assert!(resolve_early_stale_side_action_identity(&node, &context, "btc-updown-5m-1773319200", "sell", Some("down")).is_none());
    assert!(resolve_early_stale_side_action_identity(&node, &context, "some-other-market", "buy", None).is_none());
    assert!(action_place_order_early_stale_side_enabled(&node, "buy"));
}

#[test]
fn early_stale_identity_prefers_node_state_tokens() {
    let node = TradeFlowNode {
        key: "scout".to_string(),
        node_type: "action.place_order".to_string(),
        config: doc(r#"{"priceToBeatEarlyStaleSideEnabled": true}"#),
    };
    let context = doc(
        r#"{"nodeState": {"scout": {"auto_scope_yes_token_id": "cached-up", "auto_scope_no_token_id": "cached-down"}}, "flowContext": {"yesTokenId": "yes-token", "noTokenId": "no-token"}}"#,
    );
    let identity = resolve_early_stale_side_action_identity(&node, &context, "btc-updown-5m-1", "buy", None).expect("identity");
    assert_eq!(identity.token_id, "cached-up");
}

#[test]
fn identity_requires_market_and_token() {
    let context = doc(r#"{"flowContext": {}}"#);
    let missing_market = resolve_action_place_order_identity(&node(doc("{}")), &context, &step(doc("{}")), "buy", None);
    assert_eq!(missing_market.err(), Some(ActionPlaceOrderIdentityError::MissingMarketSlug));
    let missing_token = resolve_action_place_order_identity(&node(doc(r#"{"marketSlug": "m"}"#)), &context, &step(doc("{}")), "buy", None);
    assert_eq!(missing_token.err(), Some(ActionPlaceOrderIdentityError::MissingTokenId));
    assert_eq!(ActionPlaceOrderIdentityError::MissingTokenId.message(), "action.place_order requires tokenId");
}

#[test]
fn identity_reads_step_input_and_defaults_label_to_token() {
    let context = doc(r#"{"flowContext": {}}"#);
    let identity = resolve_action_place_order_identity(
        &node(doc("{}")),
        &context,
        &step(doc(r#"{"wsMarketSlug": "eth-updown-15m-1", "triggered_token_id": "tok-9"}"#)),
        "buy",
        None,
    )
    .expect("identity");
    assert_eq!(identity.market_slug, "eth-updown-15m-1");
    assert_eq!(identity.token_id, "tok-9");
    assert_eq!(identity.outcome_label, "tok-9");
}
