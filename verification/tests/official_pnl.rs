use bot_runner::official_pnl::{
    round_trade_builder_official_cash_value, round_trade_builder_official_share_qty, trade_builder_analysis_official_ledger,
    trade_builder_analysis_official_market_ledger, trade_builder_analysis_pct, trade_builder_analysis_redeem_fits_residual,
    AutoScopeAnalysisPnlReconciliation, AutoScopeOfficialMarketLedger, DataApiActivity,
};

fn trade(side: &str, asset: &str, size: i64, usdc_size: i64, price: Option<i64>, timestamp: i64) -> DataApiActivity {
    DataApiActivity {
        activity_type: "TRADE".to_string(),
        side: Some(side.to_string()),
        slug: "btc-updown-5m-1777336800".to_string(),
        asset: Some(asset.to_string()),
        outcome: Some("Up".to_string()),
        size,
        usdc_size,
        price,
        timestamp: Some(timestamp),
    }
}

fn redeem(size: i64, usdc_size: i64, timestamp: i64) -> DataApiActivity {
    DataApiActivity {
        activity_type: "REDEEM".to_string(),
        side: None,
        slug: "btc-updown-5m-1777336800".to_string(),
        asset: None,
        outcome: None,
        size,
        usdc_size,
        price: Some(0),
        timestamp: Some(timestamp),
    }
}

#[test]
fn official_ledger_uses_activity_cash_values() {
    let rows = vec![
        trade("BUY", "token-up", 10_022_380, 4_897_400, Some(470_000), 1),
        trade("SELL", "token-up", 9_000_000, 2_739_000, Some(320_000), 2),
        redeem(1_022_380, 1_022_380, 3),
    ];
    let ledger = trade_builder_analysis_official_ledger(&rows, "token-up");
    let market_ledger = trade_builder_analysis_official_market_ledger(&rows);
    let pnl = round_trade_builder_official_cash_value(-ledger.buy_usdc + ledger.sell_usdc + ledger.redeem_usdc);
    assert_eq!(ledger.buy_qty, 10_022_380);
    assert_eq!(ledger.sell_qty, 9_000_000);
    assert_eq!(ledger.redeem_usdc, 1_022_380);
    assert_eq!(pnl, -1_136_020);
    assert_eq!(market_ledger.pnl_usdc, -1_136_020);
    assert_eq!(ledger.first_buy_at, Some(1_000_000));
    assert_eq!(ledger.last_sell_at, Some(2_000_000));
    assert_eq!(ledger.last_redeem_at, Some(3_000_000));
    assert_eq!(ledger.sell_price, Some(320_000));
}

#[test]
fn official_market_ledger_includes_counter_buy_cash() {
    let rows = vec![
        trade("BUY", "down-token", 9_090_000, 9_925_800, Some(550_000), 1),
        trade("BUY", "up-token", 8_840_000, 3_270_800, Some(370_000), 2),
        trade("SELL", "down-token", 9_090_000, 12_066_308, Some(910_000), 3),
    ];
    let ledger = trade_builder_analysis_official_market_ledger(&rows);
    assert_eq!(ledger.buy_usdc, 13_196_600);
    assert_eq!(ledger.sell_usdc, 12_066_310);
    assert_eq!(ledger.pnl_usdc, -1_130_290);
}

#[test]
fn redeem_allocation_accepts_fee_reduced_residual_payout() {
    assert!(trade_builder_analysis_redeem_fits_residual(1_420_000, 1_022_380));
    assert!(!trade_builder_analysis_redeem_fits_residual(460_000, 1_022_380));
    assert!(trade_builder_analysis_redeem_fits_residual(0, 50_000));
    assert!(!trade_builder_analysis_redeem_fits_residual(0, 50_001));
    assert!(trade_builder_analysis_redeem_fits_residual(10_000_000, 10_200_000));
    assert!(!trade_builder_analysis_redeem_fits_residual(10_000_000, 10_210_000));
}

#[test]
fn official_ledger_of_one_token_only() {
    let rows = vec![
        trade("BUY", "token-up", 5_000_000, 2_000_000, None, 10),
        trade("BUY", "token-down", 7_000_000, 3_000_000, None, 5),
        trade("BUY", "token-up", 1_000_000, 400_000, None, 4),
        trade("SELL", "token-up", 2_000_000, 1_000_000, None, 20),
        trade("HOLD", "token-up", 9_000_000, 9_000_000, None, 30),
    ];
    let ledger = trade_builder_analysis_official_ledger(&rows, "token-up");
    assert_eq!(ledger.buy_qty, 6_000_000);
    assert_eq!(ledger.buy_usdc, 2_400_000);
    assert_eq!(ledger.sell_qty, 2_000_000);
    assert_eq!(ledger.first_buy_at, Some(4_000_000));
    assert_eq!(ledger.last_sell_at, Some(20_000_000));
    assert_eq!(ledger.sell_price, None);
    assert_eq!(ledger.redeem_usdc, 0);
    let mut no_time = trade("BUY", "token-up", 1, 1, None, 0);
    no_time.timestamp = None;
    let cleared = trade_builder_analysis_official_ledger(&[trade("BUY", "token-up", 1, 1, None, 4), no_time], "token-up");
    assert_eq!(cleared.first_buy_at, None);
}

#[test]
fn official_rounding_and_percentages() {
    assert_eq!(round_trade_builder_official_cash_value(12_066_305), 12_066_310);
    assert_eq!(round_trade_builder_official_cash_value(12_066_304), 12_066_300);
    assert_eq!(round_trade_builder_official_cash_value(-15), -20);
    assert_eq!(round_trade_builder_official_share_qty(-15), 0);
    assert_eq!(trade_builder_analysis_pct(-600_000, 4_100_000), Some(-14_630_000));
    assert_eq!(trade_builder_analysis_pct(1, 0), None);
}

#[test]
fn reconciliation_starts_local_and_records_the_market_ledger() {
    let local = AutoScopeAnalysisPnlReconciliation::local(-500_000);
    assert_eq!(local.official_pnl_source, "local_fallback");
    assert_eq!(local.internal_fallback_pnl_usdc, -500_000);
    assert_eq!(local.official_pnl_usdc, None);
    let flagged = local.with_flag("official_activity_lookup_failed").with_flag("official_activity_lookup_failed");
    assert_eq!(flagged.data_quality_flags, vec!["official_activity_lookup_failed".to_string()]);
    let ledger = AutoScopeOfficialMarketLedger { buy_usdc: 13_196_600, sell_usdc: 12_066_310, redeem_usdc: 0, pnl_usdc: -1_130_290 };
    let with_market = flagged.with_market_ledger(ledger, -1_000_000);
    assert_eq!(with_market.official_market_pnl_usdc, Some(-1_130_290));
    assert_eq!(with_market.official_delta_usdc, Some(-130_290));
    assert_eq!(with_market.official_market_buy_usdc, Some(13_196_600));
}
