use bot_runner::avg_rebound::{
    avg_rebound_current_stage, avg_rebound_decision_candidates, avg_rebound_projected_spend_allowed, avg_rebound_dynamic_profit_cap,
    avg_rebound_full_ladder_filled, avg_rebound_pick, AvgReboundCandidate, AvgReboundConfig, AvgReboundIntent,
    AvgReboundPrimaryTier, AvgReboundProfitLeg, AvgReboundRescue, AvgReboundStage, AvgReboundState,
};

const SHARE: i64 = 1_000_000;

fn tier(id: &str, price_cap: i64, qty: i64) -> AvgReboundPrimaryTier {
    AvgReboundPrimaryTier { id: id.to_string(), price_cap, qty }
}

fn leg(id: &str, cap: i64, qty: i64) -> AvgReboundProfitLeg {
    AvgReboundProfitLeg { id: id.to_string(), opposite_vwap_cap: cap, qty }
}

fn stage(id: &str, required: &[&str], legs: Vec<AvgReboundProfitLeg>, trigger: i64) -> AvgReboundStage {
    AvgReboundStage {
        id: id.to_string(),
        required_primary_tier_ids: required.iter().map(|s| s.to_string()).collect(),
        profit_legs: legs,
        guard_trigger: trigger,
        guard_max_execution_vwap: 800_000,
    }
}

fn config() -> AvgReboundConfig {
    AvgReboundConfig {
        session_budget_usdc: 50_000_000,
        reserved_budget_buffer_usdc: 750_000,
        extra_vwap_safety_buffer: 0,
        target_profit_usdc: None,
        allow_primary_after_partial_profit: true,
        pre_full_giveback_guard_enabled: false,
        full_giveback_guard_enabled: true,
        primary_ladder: vec![tier("p50", 500_000, 4 * SHARE), tier("p30", 300_000, 19 * SHARE)],
        stages: vec![
            stage("stage_50", &["p50"], vec![leg("s50_profit_45", 450_000, 4 * SHARE)], 600_000),
            stage("stage_30", &["p50", "p30"], vec![leg("s30_profit_59", 590_000, 8 * SHARE), leg("s30_profit_65", 650_000, 11 * SHARE)], 700_000),
        ],
        rescue: AvgReboundRescue {
            enabled_only_after_full_ladder: true,
            normal_vwap_cap: 750_000,
            emergency_vwap_cap: 780_000,
            hard_max_vwap_cap: 800_000,
            last_chance_vwap_cap: Some(850_000),
        },
    }
}

fn state() -> AvgReboundState {
    AvgReboundState {
        primary_total_qty: 0,
        primary_total_cost: 0,
        opposite_filled_qty: 0,
        opposite_total_cost: 0,
        open_primary_qty: 0,
        profit_started: false,
        primary_tier_ids: Vec::new(),
        opposite_leg_ids: Vec::new(),
    }
}

#[test]
fn target_profit_cap_at_a_fifty_cent_fill() {
    let mut c = config();
    c.target_profit_usdc = Some(100_000);
    let s = AvgReboundState {
        primary_total_qty: 4 * SHARE,
        primary_total_cost: 2_000_000,
        open_primary_qty: 4 * SHARE,
        primary_tier_ids: vec!["p50".to_string()],
        ..state()
    };
    assert_eq!(avg_rebound_dynamic_profit_cap(&c, &s, 4 * SHARE), Some((475_000, 475_000)));
    c.extra_vwap_safety_buffer = 10_000;
    assert_eq!(avg_rebound_dynamic_profit_cap(&c, &s, 4 * SHARE), Some((485_000, 475_000)));
    c.target_profit_usdc = Some(2_000_000);
    assert_eq!(avg_rebound_dynamic_profit_cap(&c, &s, 4 * SHARE), None);
    assert_eq!(avg_rebound_dynamic_profit_cap(&config(), &s, 4 * SHARE), None);
}

#[test]
fn first_step_buys_the_first_primary_tier() {
    let cands = avg_rebound_decision_candidates(&config(), &state(), 500_000);
    assert_eq!(cands.len(), 1);
    assert!(cands[0].primary_side);
    assert!(cands[0].intent == AvgReboundIntent::PrimaryLadder);
    assert_eq!(cands[0].intent.name(), "PRIMARY_LADDER");
    assert_eq!(cands[0].intent.status(), "BUILDING_PRIMARY");
    assert_eq!(cands[0].tier_or_leg, Some(0));
    assert_eq!((cands[0].qty, cands[0].vwap_cap), (4 * SHARE, 500_000));
}

#[test]
fn stage_advance_uses_the_stage_needing_most_tiers() {
    let c = config();
    let s = AvgReboundState {
        profit_started: true,
        primary_total_qty: 23 * SHARE,
        primary_total_cost: 8_500_000,
        opposite_filled_qty: 4 * SHARE,
        opposite_total_cost: 1_780_000,
        open_primary_qty: 19 * SHARE,
        primary_tier_ids: vec!["p50".to_string(), "p30".to_string()],
        opposite_leg_ids: vec!["s50_profit_45".to_string()],
    };
    assert_eq!(avg_rebound_current_stage(&c, &s), Some(1));
    assert!(avg_rebound_full_ladder_filled(&c, &s));
    let cands = avg_rebound_decision_candidates(&c, &s, 650_000);
    assert_eq!(cands[0].intent.name(), "PROFIT_PAIRLOCK");
    assert_eq!((cands[0].stage, cands[0].tier_or_leg), (Some(1), Some(0)));
    assert_eq!(cands[0].qty, 8 * SHARE);
    assert_eq!(cands[0].vwap_cap, 590_000);
    let names: Vec<&str> = cands.iter().map(|c| c.intent.name()).collect();
    assert_eq!(names, vec!["PROFIT_PAIRLOCK", "NORMAL_RESCUE", "EMERGENCY_RESCUE", "HARD_RESCUE", "LAST_CHANCE_RESCUE"]);
    assert!(cands[1..].iter().all(|c| !c.records_rejection && c.qty == 19 * SHARE));
    let guarded = avg_rebound_decision_candidates(&c, &s, 700_000);
    assert_eq!(guarded[1].intent.name(), "GIVEBACK_GUARD");
    assert_eq!(guarded[1].intent.status(), "GUARD_EXIT");
    assert_eq!(guarded[1].vwap_cap, 800_000);
}

#[test]
fn profit_leg_qty_clamps_to_open_shares() {
    let s = AvgReboundState {
        profit_started: true,
        primary_total_qty: 23 * SHARE,
        open_primary_qty: 3 * SHARE,
        primary_tier_ids: vec!["p50".to_string(), "p30".to_string()],
        opposite_leg_ids: vec!["s50_profit_45".to_string(), "s30_profit_59".to_string()],
        ..state()
    };
    let cands = avg_rebound_decision_candidates(&config(), &s, 0);
    assert_eq!(cands[0].tier_or_leg, Some(1));
    assert_eq!(cands[0].qty, 3 * SHARE);
}

#[test]
fn rescues_wait_for_the_full_ladder() {
    let s = AvgReboundState {
        primary_total_qty: 4 * SHARE,
        open_primary_qty: 4 * SHARE,
        primary_tier_ids: vec!["p50".to_string()],
        opposite_leg_ids: vec!["s50_profit_45".to_string()],
        ..state()
    };
    let cands = avg_rebound_decision_candidates(&config(), &s, 900_000);
    let names: Vec<&str> = cands.iter().map(|c| c.intent.name()).collect();
    assert_eq!(names, vec!["PRIMARY_LADDER"]);
    assert_eq!(cands[0].tier_or_leg, Some(1));
}

#[test]
fn profit_started_blocks_primary_without_open_primary() {
    let s = AvgReboundState {
        profit_started: true,
        open_primary_qty: 100,
        primary_tier_ids: vec!["p50".to_string()],
        opposite_leg_ids: vec!["s50_profit_45".to_string()],
        ..state()
    };
    assert!(avg_rebound_decision_candidates(&config(), &s, 0).is_empty());
    let open = AvgReboundState { open_primary_qty: 2 * SHARE, ..s };
    let cands = avg_rebound_decision_candidates(&config(), &open, 0);
    assert_eq!(cands.len(), 1);
    assert!(cands[0].primary_side);
}

fn cand(intent: AvgReboundIntent, records_rejection: bool) -> AvgReboundCandidate {
    AvgReboundCandidate {
        primary_side: false,
        intent,
        stage: None,
        tier_or_leg: None,
        qty: SHARE,
        vwap_cap: 500_000,
        records_rejection,
    }
}

#[test]
fn first_priced_candidate_wins_and_rejections_are_reported() {
    let cands = vec![
        cand(AvgReboundIntent::ProfitPairlock, true),
        cand(AvgReboundIntent::NormalRescue, false),
        cand(AvgReboundIntent::HardRescue, false),
        cand(AvgReboundIntent::PrimaryLadder, true),
    ];
    let (chosen, rejected) = avg_rebound_pick(&cands, &[false, false, true, true]);
    assert_eq!(chosen, Some(2));
    assert_eq!(rejected, vec![0]);
    let (chosen, rejected) = avg_rebound_pick(&cands, &[false, false, false, false]);
    assert_eq!(chosen, None);
    assert_eq!(rejected, vec![0, 3]);
}

#[test]
fn reserved_buffer_limits_projected_spend() {
    let s = AvgReboundState { primary_total_cost: 48_900_000, ..state() };
    assert!(!avg_rebound_projected_spend_allowed(&config(), &s, 400_000));
    assert!(avg_rebound_projected_spend_allowed(&config(), &s, 350_000));
}
