use bot_runner::dca_live::{
    build_dca_live_pair_node, build_dca_live_single_leg_node, dca_live_initial_shares, dca_live_pair_graph,
    dca_live_seed_usdc, DcaLivePairError, DcaLiveSelectedOutcome,
};
use bot_runner::flow::{TradeFlowEdge, TradeFlowGraphRuntime, TradeFlowNode};
use bot_runner::json::JsonValue;

fn to_doc(v: &serde_json::Value) -> JsonValue {
    match v {
        serde_json::Value::Null => JsonValue::Null,
        serde_json::Value::Bool(b) => JsonValue::Bool(*b),
        serde_json::Value::Number(n) => {
            if let Some(i) = n.as_i64() {
                JsonValue::Int(i)
            } else if let Some(u) = n.as_u64() {
                JsonValue::UInt(u)
            } else {
                JsonValue::Float(n.to_string())
            }
        }
        serde_json::Value::String(s) => JsonValue::Str(s.clone()),
        serde_json::Value::Array(items) => JsonValue::Array(items.iter().map(to_doc).collect()),
        serde_json::Value::Object(members) => {
            JsonValue::Object(members.iter().map(|(k, v)| (k.clone(), to_doc(v))).collect())
        }
    }
}

fn doc(text: &str) -> JsonValue {
    let v: serde_json::Value = serde_json::from_str(text).expect("valid json");
    to_doc(&v)
}

fn node(config: &str) -> TradeFlowNode {
    TradeFlowNode { key: "dca".to_string(), node_type: "action.place_order".to_string(), config: doc(config) }
}

fn member<'a>(v: &'a JsonValue, key: &str) -> Option<&'a JsonValue> {
    match v {
        JsonValue::Object(members) => members.iter().find(|(k, _)| k == key).map(|(_, v)| v),
        _ => None,
    }
}

fn text(s: &str) -> JsonValue {
    JsonValue::Str(s.to_string())
}

#[test]
fn initial_shares_take_the_first_setting_and_must_be_positive() {
    assert_eq!(dca_live_initial_shares(&node(r#"{"firstDcaShares": 5, "targetQty": 9}"#)), Some(5_000_000));
    assert_eq!(dca_live_initial_shares(&node(r#"{"targetQty": "2.5"}"#)), Some(2_500_000));
    assert_eq!(dca_live_initial_shares(&node(r#"{"initialOrderShares": 0, "targetQty": 9}"#)), None);
    assert_eq!(dca_live_initial_shares(&node(r#"{}"#)), None);
}

#[test]
fn seed_size_falls_back_to_shares_at_the_price_cap() {
    assert_eq!(dca_live_seed_usdc(&node(r#"{"sizeUsdc": 12}"#), 5_000_000), Some(12_000_000));
    // 5 shares at 45c
    assert_eq!(dca_live_seed_usdc(&node(r#"{"maxPriceCent": 45}"#), 5_000_000), Some(2_250_000));
    // 5 shares at the default 100c
    assert_eq!(dca_live_seed_usdc(&node(r#"{}"#), 5_000_000), Some(5_000_000));
    assert_eq!(dca_live_seed_usdc(&node(r#"{"dcaEntryMaxPriceCent": 0}"#), 5_000_000), None);
}

#[test]
fn single_leg_node_buys_the_outcome_in_shares() {
    let outcome = DcaLiveSelectedOutcome {
        market_slug: "btc-updown-5m-1772296200".to_string(),
        outcome_label: "Up".to_string(),
        token_id: "tok-up".to_string(),
    };
    let n = build_dca_live_single_leg_node(&node(r#"{"mode": "dca_live_v1", "dcaEntryMaxPriceCent": 45}"#), &outcome, 5_000_000);
    assert_eq!(n.key, "dca");
    assert_eq!(member(&n.config, "mode"), Some(&text("single")));
    assert_eq!(member(&n.config, "side"), Some(&text("buy")));
    assert_eq!(member(&n.config, "tokenId"), Some(&text("tok-up")));
    assert_eq!(member(&n.config, "sizeMode"), Some(&text("shares")));
    assert_eq!(member(&n.config, "targetQty"), Some(&JsonValue::Float("5.000000".to_string())));
    assert_eq!(member(&n.config, "executionMode"), Some(&text("limit")));
    assert_eq!(member(&n.config, "maxPriceCent"), Some(&JsonValue::Float("45.000000".to_string())));
    let market = build_dca_live_single_leg_node(&node(r#"{"executionMode": "market"}"#), &outcome, 5_000_000);
    assert_eq!(member(&market.config, "executionMode"), Some(&text("market")));
    assert_eq!(member(&market.config, "maxPriceCent"), None);
}

#[test]
fn pair_node_locks_the_pair_with_a_seed() {
    let context = doc(r#"{"flowContext": {"marketSlug": "eth-updown-5m-1"}}"#);
    let n = build_dca_live_pair_node(&node(r#"{"maxPriceCent": 40}"#), &context, 10_000_000).expect("pair node");
    assert_eq!(member(&n.config, "mode"), Some(&text("pair_lock")));
    assert_eq!(member(&n.config, "pairMaxTotalCent"), Some(&JsonValue::Float("97.000000".to_string())));
    assert_eq!(member(&n.config, "sizeUsdc"), Some(&JsonValue::Float("4.000000".to_string())));
    assert_eq!(member(&n.config, "executionMode"), Some(&text("limit")));
    assert_eq!(member(&n.config, "marketSlug"), Some(&text("eth-updown-5m-1")));
    let sized = build_dca_live_pair_node(&node(r#"{"targetNotionalUsdc": 3, "targetPairCostCent": 95}"#), &context, 10_000_000)
        .expect("pair node");
    assert_eq!(member(&sized.config, "sizeUsdc"), None);
    assert_eq!(member(&sized.config, "pairMaxTotalCent"), Some(&JsonValue::Float("95.000000".to_string())));
    assert!(matches!(
        build_dca_live_pair_node(&node(r#"{"maxPriceCent": -1}"#), &context, 10_000_000),
        Err(DcaLivePairError::MissingSeedSize)
    ));
}

#[test]
fn pair_graph_rebinds_only_the_trigger() {
    let graph = TradeFlowGraphRuntime {
        context: doc(r#"{"flowContext": {}}"#),
        nodes: vec![
            TradeFlowNode { key: "trigger".to_string(), node_type: "trigger.market_price".to_string(), config: doc(r#"{"bindingMode": "dca_live_only"}"#) },
            node(r#"{"mode": "dca_live_v1"}"#),
        ],
        edges: vec![TradeFlowEdge { source: "trigger".to_string(), target: "dca".to_string(), edge_type: "next".to_string(), condition: None }],
    };
    let paired = dca_live_pair_graph(&graph, "trigger");
    assert_eq!(member(&paired.nodes[0].config, "bindingMode"), Some(&text("pair_lock_only")));
    assert_eq!(member(&paired.nodes[1].config, "mode"), Some(&text("dca_live_v1")));
    assert_eq!(paired.edges.len(), 1);
    assert_eq!(paired.edges[0].target, "dca");
}
