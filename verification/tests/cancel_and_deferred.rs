use bot_runner::cancel_reconcile::{
    trade_builder_cancel_fill_is_full, trade_builder_detected_cancel_fill, trade_builder_detected_cancel_fill_notional,
    trade_builder_detected_cancel_fill_qty, trade_builder_remaining_usdc_after_partial_fill,
};
use bot_runner::deferred_submit_events::DeferredTradeBuilderSubmitEvents;
use bot_runner::json::JsonValue;

fn pass() -> JsonValue {
    JsonValue::Object(vec![("pass".to_string(), JsonValue::Bool(true))])
}

#[test]
fn deferred_submit_events_collects_guard_and_order_events() {
    let mut events = DeferredTradeBuilderSubmitEvents::default();
    events.defer_guard_passed(510_000, 520_000, Some(530_000), pass(), pass(), pass());
    events.defer_order_event(
        "optimistic_exit_submit_used",
        JsonValue::Object(vec![("ok".to_string(), JsonValue::Bool(true))]),
    );
    assert!(events.guard_passed.is_some());
    assert_eq!(events.order_events.len(), 1);
}

#[test]
fn deferred_events_flush_in_order_and_empty() {
    let mut events = DeferredTradeBuilderSubmitEvents::new();
    events.defer_order_event("a", JsonValue::Null);
    events.defer_order_event("b", JsonValue::Null);
    let (guard, order_events) = events.take_for_flush();
    assert!(guard.is_none());
    let types: Vec<&str> = order_events.iter().map(|e| e.event_type).collect();
    assert_eq!(types, vec!["a", "b"]);
    assert!(events.guard_passed.is_none());
    assert!(events.order_events.is_empty());
}

#[test]
fn cancel_fill_detection_prefers_the_exchange() {
    assert_eq!(trade_builder_detected_cancel_fill_qty(Some(2_504_999), 9_000_000), Some(250));
    assert_eq!(trade_builder_detected_cancel_fill_qty(Some(4_000), 9_000_000), Some(900));
    assert_eq!(trade_builder_detected_cancel_fill_qty(None, 0), None);
    let d = trade_builder_detected_cancel_fill(Some(2_000_000), 9_000_000, Some(5)).expect("fill");
    assert_eq!((d.qty, d.source), (200, "order_info_filled_size"));
    let d = trade_builder_detected_cancel_fill(None, 9_000_000, Some(5)).expect("fill");
    assert_eq!((d.qty, d.source), (900, "db_aggregate"));
    let d = trade_builder_detected_cancel_fill(None, 0, Some(5)).expect("fill");
    assert_eq!((d.qty, d.source), (5, "visible_inventory_delta"));
    assert!(trade_builder_detected_cancel_fill(None, 0, None).is_none());
}

#[test]
fn cancel_fill_notional_full_and_remaining() {
    let d = trade_builder_detected_cancel_fill(Some(3_000_000), 0, None);
    assert_eq!(trade_builder_detected_cancel_fill_notional(1_500_000, d, Some(1), None, 2), 1_500_000);
    assert_eq!(trade_builder_detected_cancel_fill_notional(0, d, Some(430_000), Some(1), 2), 1_290_000);
    assert_eq!(trade_builder_detected_cancel_fill_notional(0, d, None, Some(400_000), 2), 1_200_000);
    assert_eq!(trade_builder_detected_cancel_fill_notional(0, d, None, None, 333_333), 999_999);
    assert_eq!(trade_builder_detected_cancel_fill_notional(0, None, None, None, 333_333), 0);
    let odd = trade_builder_detected_cancel_fill(None, 10_000, None);
    assert_eq!(trade_builder_detected_cancel_fill_notional(0, odd, None, None, 150), 2);
    assert!(trade_builder_cancel_fill_is_full("filled", None, 0));
    assert!(trade_builder_cancel_fill_is_full("canceled", Some(10_000_000), 999));
    assert!(!trade_builder_cancel_fill_is_full("canceled", Some(10_000_000), 998));
    assert!(!trade_builder_cancel_fill_is_full("canceled", None, 1_000));
    assert_eq!(trade_builder_remaining_usdc_after_partial_fill(Some(5_000_000), Some(1), 9, 1_200_000), 3_800_000);
    assert_eq!(trade_builder_remaining_usdc_after_partial_fill(None, Some(1_000_000), 9, 1_200_000), 0);
    assert_eq!(trade_builder_remaining_usdc_after_partial_fill(None, None, 9_000_000, 1_000_000), 8_000_000);
}
