use bot_runner::exit_errors::{
    clob_order_warmup_error_requires_cooldown, trade_builder_exit_submit_stage_from_last_error,
    trade_builder_retry_error_text, TradeBuilderExitSubmitStage, TradeBuilderTerminalFillQtySource,
};
use bot_runner::exit_ladders::{
    trade_builder_exit_family, trade_builder_exit_sibling_policy, trade_builder_hard_tp_rule,
    trade_builder_normalized_tp_rules, trade_builder_order_has_exit_ladders,
    validate_trade_builder_price_exit_rules, validate_trade_builder_time_exit_rules, ExitRuleError,
    PCT_HUNDRED, TRADE_BUILDER_EXIT_LADDER_KIND_PTB_SL, TRADE_BUILDER_EXIT_LADDER_KIND_TP,
    TRADE_BUILDER_EXIT_SIBLING_POLICY_CANCEL_ALL, TRADE_BUILDER_EXIT_SIBLING_POLICY_RESIZE_REMAINING,
};
use bot_runner::ladder_plan::{
    trade_builder_ladder_family_target_plan, trade_builder_ladder_family_target_qtys,
    trade_builder_ladder_rule_target_plan, trade_builder_plan_weighted_ladder_targets,
};
use bot_runner::order::{
    normalize_trade_builder_size_basis, TradeBuilderOrder, TradeBuilderPriceExitRule, TradeBuilderTimeExitRule,
    TRADE_BUILDER_SIZE_BASIS_NOTIONAL_USDC,
};
use bot_runner::share_qty::{
    clamp_trade_builder_visible_share_qty, round_trade_builder_share_qty, select_trade_builder_terminal_fill_qty,
    TradeBuilderTerminalFillQtyCandidates,
};

/// Millionths of a dollar, of a percent.
fn micros(whole: f64) -> i64 {
    (whole * 1_000_000.0).round() as i64
}

fn test_builder_order(side: &str, parent_order_id: Option<i64>) -> TradeBuilderOrder {
    TradeBuilderOrder {
        id: 1,
        user_id: 1,
        kind: "conditional".to_string(),
        status: "pending".to_string(),
        market_slug: "btc-updown-5m-1".to_string(),
        token_id: "tok-up".to_string(),
        outcome_label: "Up".to_string(),
        side: side.to_string(),
        execution_mode: "market".to_string(),
        trigger_condition: Some("cross_above".to_string()),
        trigger_price: Some(micros(0.8)),
        size_basis: TRADE_BUILDER_SIZE_BASIS_NOTIONAL_USDC.to_string(),
        last_error: None,
        last_seen_price: None,
        working_price: None,
        sl_trigger_price_mode: None,
        created_at: 0,
        parent_order_id,
        origin_flow_run_id: None,
        tp_enabled: false,
        tp_price: None,
        tp_rules_json: Vec::new(),
        sl_enabled: false,
        sl_price: None,
        sl_rules_json: Vec::new(),
        time_exit_rules_json: Vec::new(),
        retry_on_execution_floor_guard_block: false,
        ptb_stop_loss_gap_usd: None,
        ptb_stop_loss_rules_json: Vec::new(),
        exit_ladder_kind: None,
        exit_ladder_index: None,
        exit_ladder_size_pct: None,
    }
}

#[test]
fn price_exit_rules_require_exact_total() {
    let rules = vec![
        TradeBuilderPriceExitRule { price: micros(0.60), size_pct: micros(40.0) },
        TradeBuilderPriceExitRule { price: micros(0.70), size_pct: micros(50.0) },
    ];
    assert!(validate_trade_builder_price_exit_rules(&rules, TRADE_BUILDER_EXIT_LADDER_KIND_TP).is_err());
}

#[test]
fn price_exit_rules_accept_a_full_rising_ladder() {
    let rules = vec![
        TradeBuilderPriceExitRule { price: micros(0.60), size_pct: micros(40.0) },
        TradeBuilderPriceExitRule { price: micros(0.70), size_pct: micros(60.0) },
    ];
    assert_eq!(validate_trade_builder_price_exit_rules(&rules, TRADE_BUILDER_EXIT_LADDER_KIND_TP), Ok(()));
    let total = vec![TradeBuilderPriceExitRule { price: micros(0.60), size_pct: micros(40.0) }];
    assert_eq!(validate_trade_builder_price_exit_rules(&total, TRADE_BUILDER_EXIT_LADDER_KIND_TP), Err(ExitRuleError::SizeTotalNot100));
    assert_eq!(validate_trade_builder_price_exit_rules(&[], TRADE_BUILDER_EXIT_LADDER_KIND_TP), Ok(()));
}

#[test]
fn time_exit_rules_require_strictly_increasing_elapsed_minutes() {
    let rules = vec![
        TradeBuilderTimeExitRule { elapsed_minutes: 12, remaining_pct: micros(20.0) },
        TradeBuilderTimeExitRule { elapsed_minutes: 12, remaining_pct: micros(100.0) },
    ];
    assert!(validate_trade_builder_time_exit_rules(&rules).is_err());
}

#[test]
fn hard_exit_rule_can_coexist_with_staged_rules() {
    let order = TradeBuilderOrder {
        tp_enabled: true,
        tp_price: Some(micros(0.82)),
        tp_rules_json: vec![TradeBuilderPriceExitRule { price: micros(0.70), size_pct: micros(100.0) }],
        ..test_builder_order("buy", None)
    };
    assert_eq!(trade_builder_hard_tp_rule(&order), Some(TradeBuilderPriceExitRule { price: micros(0.82), size_pct: PCT_HUNDRED }));
    assert_eq!(trade_builder_normalized_tp_rules(&order).len(), 1);
    assert!(trade_builder_order_has_exit_ladders(&order));
}

#[test]
fn staged_children_use_resize_policy_and_hard_children_cancel_all() {
    let mut staged = test_builder_order("sell", Some(9));
    staged.exit_ladder_kind = Some("sl".to_string());
    let mut staged_ptb = test_builder_order("sell", Some(9));
    staged_ptb.exit_ladder_kind = Some("ptb_sl".to_string());
    let hard = test_builder_order("sell", Some(9));
    assert_eq!(trade_builder_exit_sibling_policy(&staged), TRADE_BUILDER_EXIT_SIBLING_POLICY_RESIZE_REMAINING);
    assert_eq!(trade_builder_exit_sibling_policy(&staged_ptb), TRADE_BUILDER_EXIT_SIBLING_POLICY_RESIZE_REMAINING);
    assert_eq!(trade_builder_exit_sibling_policy(&hard), TRADE_BUILDER_EXIT_SIBLING_POLICY_CANCEL_ALL);
}

#[test]
fn ptb_stop_loss_family_isolated_from_classic_sl_family() {
    let mut classic_sl = test_builder_order("sell", Some(9));
    classic_sl.id = 71;
    classic_sl.exit_ladder_kind = Some("sl".to_string());
    classic_sl.exit_ladder_index = Some(0);
    classic_sl.exit_ladder_size_pct = Some(micros(50.0));
    let mut staged_ptb = test_builder_order("sell", Some(9));
    staged_ptb.id = 72;
    staged_ptb.exit_ladder_kind = Some("ptb_sl".to_string());
    staged_ptb.exit_ladder_index = Some(0);
    staged_ptb.exit_ladder_size_pct = Some(micros(25.0));
    let classic_targets = trade_builder_ladder_family_target_qtys(&[&classic_sl], 320, None);
    let ptb_targets = trade_builder_ladder_family_target_qtys(&[&staged_ptb], 320, None);
    assert_eq!(classic_targets, vec![(71, 320)]);
    assert_eq!(ptb_targets, vec![(72, 320)]);
    assert_eq!(trade_builder_exit_family(&staged_ptb), Some(TRADE_BUILDER_EXIT_LADDER_KIND_PTB_SL));
}

#[test]
fn ladder_family_target_qtys_make_last_stage_absorb_rounding_remainder() {
    let mut first_tp = test_builder_order("sell", Some(9));
    first_tp.id = 11;
    first_tp.exit_ladder_kind = Some("tp".to_string());
    first_tp.exit_ladder_index = Some(0);
    first_tp.exit_ladder_size_pct = Some(micros(33.33));
    let mut second_tp = test_builder_order("sell", Some(9));
    second_tp.id = 12;
    second_tp.exit_ladder_kind = Some("tp".to_string());
    second_tp.exit_ladder_index = Some(1);
    second_tp.exit_ladder_size_pct = Some(micros(33.33));
    let mut third_tp = test_builder_order("sell", Some(9));
    third_tp.id = 13;
    third_tp.exit_ladder_kind = Some("tp".to_string());
    third_tp.exit_ladder_index = Some(2);
    third_tp.exit_ladder_size_pct = Some(micros(33.34));
    let targets = trade_builder_ladder_family_target_qtys(&[&first_tp, &second_tp, &third_tp], 100, None);
    assert_eq!(targets, vec![(11, 33), (12, 33), (13, 34)]);
}

#[test]
fn ladder_family_target_qtys_make_single_live_last_stage_full_close() {
    let mut last_tp = test_builder_order("sell", Some(9));
    last_tp.id = 22;
    last_tp.exit_ladder_kind = Some("tp".to_string());
    last_tp.exit_ladder_index = Some(1);
    last_tp.exit_ladder_size_pct = Some(micros(50.0));
    let targets = trade_builder_ladder_family_target_qtys(&[&last_tp], 141, None);
    assert_eq!(targets, vec![(22, 141)]);
}

#[test]
fn ladder_family_target_qtys_consolidate_all_sub_min_stages_into_last_stage() {
    let mut first_sl = test_builder_order("sell", Some(9));
    first_sl.id = 31;
    first_sl.exit_ladder_kind = Some("sl".to_string());
    first_sl.exit_ladder_index = Some(0);
    first_sl.exit_ladder_size_pct = Some(micros(50.0));
    let mut second_sl = test_builder_order("sell", Some(9));
    second_sl.id = 32;
    second_sl.exit_ladder_kind = Some("sl".to_string());
    second_sl.exit_ladder_index = Some(1);
    second_sl.exit_ladder_size_pct = Some(micros(50.0));
    let targets = trade_builder_ladder_family_target_qtys(&[&first_sl, &second_sl], 757, Some(500));
    assert_eq!(targets, vec![(32, 757)]);
}

#[test]
fn ladder_family_target_qtys_pushes_sub_min_qty_into_deepest_surviving_stage() {
    let mut first_sl = test_builder_order("sell", Some(9));
    first_sl.id = 41;
    first_sl.exit_ladder_kind = Some("sl".to_string());
    first_sl.exit_ladder_index = Some(0);
    first_sl.exit_ladder_size_pct = Some(micros(30.0));
    let mut second_sl = test_builder_order("sell", Some(9));
    second_sl.id = 42;
    second_sl.exit_ladder_kind = Some("sl".to_string());
    second_sl.exit_ladder_index = Some(1);
    second_sl.exit_ladder_size_pct = Some(micros(70.0));
    let targets = trade_builder_ladder_family_target_qtys(&[&first_sl, &second_sl], 800, Some(500));
    assert_eq!(targets, vec![(42, 800)]);
}

#[test]
fn ladder_family_target_qtys_return_empty_when_total_qty_is_below_minimum() {
    let mut first_sl = test_builder_order("sell", Some(9));
    first_sl.id = 51;
    first_sl.exit_ladder_kind = Some("sl".to_string());
    first_sl.exit_ladder_index = Some(0);
    first_sl.exit_ladder_size_pct = Some(micros(50.0));
    let mut second_sl = test_builder_order("sell", Some(9));
    second_sl.id = 52;
    second_sl.exit_ladder_kind = Some("sl".to_string());
    second_sl.exit_ladder_index = Some(1);
    second_sl.exit_ladder_size_pct = Some(micros(50.0));
    let targets = trade_builder_ladder_family_target_qtys(&[&first_sl, &second_sl], 420, Some(500));
    assert!(targets.is_empty());
}

#[test]
fn ladder_family_orders_children_by_index_then_id() {
    let mut deep = test_builder_order("sell", Some(9));
    deep.id = 5;
    deep.exit_ladder_index = Some(1);
    deep.exit_ladder_size_pct = Some(micros(50.0));
    let mut shallow = test_builder_order("sell", Some(9));
    shallow.id = 6;
    shallow.exit_ladder_index = Some(0);
    shallow.exit_ladder_size_pct = Some(micros(50.0));
    let mut unweighted = test_builder_order("sell", Some(9));
    unweighted.id = 7;
    let plan = trade_builder_ladder_family_target_plan(&[&deep, &unweighted, &shallow], 101, None);
    assert_eq!(plan.requested_targets, vec![(6, 51), (5, 50)]);
    assert_eq!(plan.targets, plan.requested_targets);
    assert!(plan.skipped_keys.is_empty());
    assert_eq!(plan.consolidation_target, None);
}

#[test]
fn ladder_plan_drops_small_stages_into_deepest_kept_stage() {
    let plan = trade_builder_plan_weighted_ladder_targets(&[(1, micros(10.0)), (2, micros(60.0)), (3, micros(30.0))], 1000, Some(200));
    assert_eq!(plan.requested_targets, vec![(1, 100), (2, 600), (3, 300)]);
    assert_eq!(plan.targets, vec![(2, 600), (3, 400)]);
    assert_eq!(plan.skipped_keys, vec![1]);
    assert_eq!(plan.consolidation_target, Some(3));
}

#[test]
fn ladder_plan_requests_cover_position() {
    let plan = trade_builder_plan_weighted_ladder_targets(&[(1, 1), (2, 1), (3, 1)], 100, None);
    let total: i64 = plan.requested_targets.iter().map(|(_, q)| *q).sum();
    assert_eq!(total, 100);
    assert_eq!(plan.requested_targets, vec![(1, 33), (2, 33), (3, 34)]);
    let empty = trade_builder_plan_weighted_ladder_targets(&[(1, 0)], 100, None);
    assert!(empty.requested_targets.is_empty());
    let none = trade_builder_plan_weighted_ladder_targets(&[(1, 5)], 0, None);
    assert!(none.targets.is_empty());
}

#[test]
fn ladder_plan_accepts_negative_weights() {
    let no_weight = trade_builder_plan_weighted_ladder_targets(&[(1, 5), (2, -5)], 100, None);
    assert!(no_weight.requested_targets.is_empty());
    assert!(no_weight.targets.is_empty());
    assert!(no_weight.skipped_keys.is_empty());
    assert_eq!(no_weight.consolidation_target, None);
    let skewed = trade_builder_plan_weighted_ladder_targets(&[(1, 2), (2, -1)], 100, None);
    assert_eq!(skewed.requested_targets, vec![(1, 200)]);
    assert_eq!(skewed.targets, vec![(1, 200)]);
    let negative_first = trade_builder_plan_weighted_ladder_targets(&[(1, -1), (2, 3)], 100, None);
    assert_eq!(negative_first.requested_targets, vec![(2, 100)]);
}

#[test]
fn ladder_targets_add_up_to_the_position_against_a_minimum() {
    let plan = trade_builder_plan_weighted_ladder_targets(&[(1, micros(10.0)), (2, micros(60.0)), (3, micros(30.0))], 1000, Some(200));
    let total: i64 = plan.targets.iter().map(|(_, q)| *q).sum();
    assert_eq!(total, 1000);
    assert!(plan.targets.iter().all(|(_, q)| *q >= 200));
    let keys: Vec<i64> = plan.requested_targets.iter().map(|(k, _)| *k).collect();
    let targeted: Vec<i64> = plan.targets.iter().map(|(k, _)| *k).collect();
    let untargeted: Vec<i64> = keys.iter().copied().filter(|k| !targeted.contains(k)).collect();
    assert_eq!(plan.skipped_keys, untargeted);
}

#[test]
fn rule_plan_keys_stages_by_position() {
    let rules = vec![
        TradeBuilderPriceExitRule { price: micros(0.6), size_pct: micros(25.0) },
        TradeBuilderPriceExitRule { price: micros(0.7), size_pct: micros(75.0) },
    ];
    let plan = trade_builder_ladder_rule_target_plan(&rules, 400, None);
    assert_eq!(plan.targets, vec![(0, 100), (1, 300)]);
}

#[test]
fn retry_text_round_trips_the_stage() {
    for stage in [TradeBuilderExitSubmitStage::DynamicGross, TradeBuilderExitSubmitStage::EstimatedVisible, TradeBuilderExitSubmitStage::VisibleInventory] {
        let text = trade_builder_retry_error_text("  not enough balance / allowance  ", Some(stage));
        assert_eq!(trade_builder_exit_submit_stage_from_last_error(Some(&text)), Some(stage));
    }
    assert_eq!(
        trade_builder_retry_error_text(" boom ", Some(TradeBuilderExitSubmitStage::EstimatedVisible)),
        "boom [exit_submit_stage=estimated_visible]"
    );
    assert_eq!(trade_builder_retry_error_text(" boom ", None), "boom");
    assert_eq!(trade_builder_exit_submit_stage_from_last_error(Some("plain")), None);
}

#[test]
fn clob_order_warmup_cools_down_on_rate_limit_or_repeated_failures() {
    assert!(clob_order_warmup_error_requires_cooldown("HTTP status 429 Too Many Requests", 1));
    assert!(clob_order_warmup_error_requires_cooldown("temporary timeout", 3));
    assert!(!clob_order_warmup_error_requires_cooldown("temporary timeout", 2));
    assert!(clob_order_warmup_error_requires_cooldown("FORBIDDEN", 0));
}

#[test]
fn size_basis_normalizes_to_shares_or_notional() {
    assert_eq!(normalize_trade_builder_size_basis("  SHARES "), "shares");
    assert_eq!(normalize_trade_builder_size_basis("usdc"), "notional_usdc");
    assert_eq!(normalize_trade_builder_size_basis(normalize_trade_builder_size_basis("Shares")), "shares");
}

#[test]
fn share_quantities_round_and_clamp_to_hundredths() {
    assert_eq!(round_trade_builder_share_qty(1_234_999), 123);
    assert_eq!(round_trade_builder_share_qty(1_235_000), 124);
    assert_eq!(round_trade_builder_share_qty(-5), 0);
    assert_eq!(clamp_trade_builder_visible_share_qty(5_000_000, Some(3_219_999)), Some(321));
    assert_eq!(clamp_trade_builder_visible_share_qty(5_000_000, None), Some(500));
    assert_eq!(clamp_trade_builder_visible_share_qty(5_000_000, Some(9_999)), None);
}

#[test]
fn terminal_fill_qty_prefers_filled_size_then_order_size_then_stored() {
    let candidates = TradeBuilderTerminalFillQtyCandidates {
        order_info_filled_size: Some(4_000),
        synced_db_fill_qty: Some(7_000_000),
        order_info_size: Some(2_504_999),
        stored_order_size: Some(3_000_000),
    };
    let resolved = select_trade_builder_terminal_fill_qty(candidates).expect("resolved");
    assert_eq!(resolved.qty, 250);
    assert_eq!(resolved.source, TradeBuilderTerminalFillQtySource::OrderInfoSize);
    assert_eq!(resolved.source.as_str(), "order_info_size");
    let none = TradeBuilderTerminalFillQtyCandidates { order_info_filled_size: None, synced_db_fill_qty: None, order_info_size: Some(0), stored_order_size: None };
    assert!(select_trade_builder_terminal_fill_qty(none).is_none());
}
