use bot_runner::analysis_pnl::{
    round_trade_builder_signed_qty, trade_builder_analysis_allocate_sell_fill, trade_builder_analysis_pnl_breakdown,
};

const SHARE: i64 = 1_000_000;

#[test]
fn pnl_breakdown_includes_buy_fee_in_cost_basis() {
    let breakdown = trade_builder_analysis_pnl_breakdown(10 * SHARE, 400_000, 10_000, 3_500_000);
    assert_eq!(breakdown.buy_notional_usdc, 4_000_000);
    assert_eq!(breakdown.buy_fee_usdc, 100_000);
    assert_eq!(breakdown.cost_basis_usdc, 4_100_000);
    assert_eq!(breakdown.net_value_usdc, 3_500_000);
    assert_eq!(breakdown.row_pnl_usdc, -600_000);
    assert_eq!(breakdown.pnl_pct, Some(-14_630_000));
}

#[test]
fn pnl_breakdown_supports_mark_to_market_profit() {
    let breakdown = trade_builder_analysis_pnl_breakdown(5 * SHARE, 200_000, 0, 1_500_000);
    assert_eq!(breakdown.cost_basis_usdc, 1_000_000);
    assert_eq!(breakdown.net_value_usdc, 1_500_000);
    assert_eq!(breakdown.row_pnl_usdc, 500_000);
    assert_eq!(breakdown.pnl_pct, Some(50_000_000));
}

#[test]
fn pnl_breakdown_without_cost_has_no_percentage() {
    let breakdown = trade_builder_analysis_pnl_breakdown(0, 400_000, 10_000, 1_234_567);
    assert_eq!(breakdown.cost_basis_usdc, 0);
    assert_eq!(breakdown.net_value_usdc, 1_230_000);
    assert_eq!(breakdown.row_pnl_usdc, 1_230_000);
    assert_eq!(breakdown.pnl_pct, None);
    assert_eq!(round_trade_builder_signed_qty(-5_000), -10_000);
    assert_eq!(round_trade_builder_signed_qty(4_999), 0);
    assert_eq!(round_trade_builder_signed_qty(15_000), 20_000);
}

#[test]
fn sell_allocation_keeps_normal_exit_full_size() {
    let allocation = trade_builder_analysis_allocate_sell_fill(10 * SHARE, 0, 5 * SHARE);
    assert_eq!(allocation.allocated_qty, 500);
    assert_eq!(allocation.ignored_qty, 0);
    assert_eq!(allocation.allocation_ratio, (500, 500));
    assert_eq!(ratio_value(allocation.allocation_ratio), 1.0);
    assert_eq!(allocation.remaining_qty_after_exit, 500);
}

#[test]
fn sell_allocation_caps_overlapping_exit_to_remaining_buy_qty() {
    let allocation = trade_builder_analysis_allocate_sell_fill(10 * SHARE, 7 * SHARE, 7 * SHARE);
    assert_eq!(allocation.allocated_qty, 300);
    assert_eq!(allocation.ignored_qty, 400);
    assert_eq!(allocation.allocation_ratio, (300, 700));
    assert!((ratio_value(allocation.allocation_ratio) - 3.0 / 7.0).abs() < 0.000001);
    assert_eq!(allocation.remaining_qty_after_exit, 0);
}

#[test]
fn sell_allocation_ignores_duplicate_exit_after_position_closed() {
    let allocation = trade_builder_analysis_allocate_sell_fill(10 * SHARE, 10 * SHARE, 2 * SHARE);
    assert_eq!(allocation.allocated_qty, 0);
    assert_eq!(allocation.ignored_qty, 200);
    assert_eq!(ratio_value(allocation.allocation_ratio), 0.0);
    assert_eq!(allocation.remaining_qty_after_exit, 0);
}

#[test]
fn partial_sell_allocation_prorates_sell_notional_and_fee() {
    let allocation = trade_builder_analysis_allocate_sell_fill(10 * SHARE, 7 * SHARE, 7 * SHARE);
    let (numerator, denominator) = allocation.allocation_ratio;
    let sell_notional_usdc = 7_000_000 * numerator / denominator;
    let sell_fee_usdc = 700_000 * numerator / denominator;
    let breakdown = trade_builder_analysis_pnl_breakdown(
        allocation.allocated_qty * 10_000,
        400_000,
        10_000,
        sell_notional_usdc - sell_fee_usdc,
    );
    assert_eq!(round_trade_builder_signed_qty(sell_notional_usdc), 3_000_000);
    assert_eq!(round_trade_builder_signed_qty(sell_fee_usdc), 300_000);
    assert_eq!(breakdown.cost_basis_usdc, 1_230_000);
    assert_eq!(breakdown.net_value_usdc, 2_700_000);
    assert_eq!(breakdown.row_pnl_usdc, 1_470_000);
}

#[test]
fn sell_allocation_of_nothing() {
    let allocation = trade_builder_analysis_allocate_sell_fill(10 * SHARE, 0, -SHARE);
    assert_eq!(allocation.allocated_qty, 0);
    assert_eq!(allocation.ignored_qty, 0);
    assert_eq!(allocation.allocation_ratio, (0, 1));
    assert_eq!(allocation.remaining_qty_after_exit, 1_000);
    let rounded = trade_builder_analysis_allocate_sell_fill(SHARE, 0, 4_999);
    assert_eq!(rounded.allocated_qty, 0);
    assert_eq!(rounded.allocation_ratio, (0, 1));
}

#[test]
fn sell_allocation_ratio_is_exact_for_tiny_allocations() {
    // One hundredth of a share left against a sell of thirty thousand shares.
    let allocation = trade_builder_analysis_allocate_sell_fill(10 * SHARE, 10 * SHARE - 10_000, 30_000 * SHARE);
    assert_eq!(allocation.allocated_qty, 1);
    assert_eq!(allocation.allocation_ratio, (1, 3_000_000));
    assert!(ratio_value(allocation.allocation_ratio) > 0.0);
}

fn ratio_value(ratio: (i64, i64)) -> f64 {
    ratio.0 as f64 / ratio.1 as f64
}
